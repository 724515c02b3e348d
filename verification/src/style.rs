//! How a slider looks, and the look that a theme gives it.
use vstd::prelude::*;
use crate::background::Color;

verus! {

/// What a slider is doing, as far as its look depends on it.
#[derive(Clone, Copy, Debug, PartialEq, Eq, Structural)]
pub enum Status {
    /// The slider can be interacted with.
    Active,
    /// The pointer is over the slider.
    Hovered,
    /// The slider is being dragged.
    Dragged,
}

/// The look of a slider.
#[derive(Clone, Copy, Debug, PartialEq, Eq)]
pub struct Appearance {
    /// The look of the rail.
    pub rail: Rail,
    /// The look of the handle.
    pub handle: Handle,
}

impl Appearance {
    /// Gives the handle the shape of a circle with the given radius; all else
    /// stays.
    pub fn with_circular_handle(self, radius: u16) -> (appearance: Appearance)
        ensures
            appearance == (Appearance {
                rail: self.rail,
                handle: Handle { shape: HandleShape::Circle { radius }, ..self.handle },
            }),
    {
        let mut appearance = self;
        appearance.handle.shape = HandleShape::Circle { radius };
        appearance
    }
}

/// The look of the rail of a slider.
#[derive(Clone, Copy, Debug, PartialEq, Eq)]
pub struct Rail {
    /// The colour of the rail before the handle, and the colour after it.
    pub colors: (Color, Color),
    /// The width of the stroke of the rail.
    pub width: u32,
    /// The radius of the corners of the rail.
    pub border_radius: u32,
}

/// The look of the handle of a slider.
#[derive(Clone, Copy, Debug, PartialEq, Eq, Structural)]
pub struct Handle {
    /// The shape of the handle.
    pub shape: HandleShape,
    /// The colour of the handle.
    pub color: Color,
    /// The width of the border of the handle.
    pub border_width: u32,
    /// The colour of the border of the handle.
    pub border_color: Color,
}

/// The shape of the handle of a slider.
#[derive(Clone, Copy, Debug, PartialEq, Eq, Structural)]
pub enum HandleShape {
    /// A circle.
    Circle {
        /// The radius of the circle.
        radius: u16,
    },
    /// A rectangle as high as the slider.
    Rectangle {
        /// The width of the rectangle.
        width: u16,
        /// The radius of the corners of the rectangle.
        border_radius: u32,
    },
}

/// A colour in three strengths.
#[derive(Clone, Copy, Debug, PartialEq, Eq, Structural)]
pub struct Swatch {
    pub base: Color,
    pub weak: Color,
    pub strong: Color,
}

/// The colours of a theme.
#[derive(Clone, Copy, Debug, PartialEq, Eq, Structural)]
pub struct Palette {
    pub primary: Swatch,
    pub secondary: Swatch,
}

/// A set of colours that widgets take their looks from.
#[derive(Clone, Copy, Debug, PartialEq, Eq, Structural)]
pub struct Theme {
    pub palette: Palette,
}

/// The look that a theme gives a slider: the primary colour, strong unless the
/// pointer hovers, for the handle and the rail before it; the secondary colour
/// for the rail after it; a rail four wide with corners of radius two; a
/// circular handle of radius seven without a border.
pub open spec fn default_look(theme: Theme, status: Status) -> Appearance {
    let color = match status {
        Status::Active => theme.palette.primary.strong,
        Status::Hovered => theme.palette.primary.base,
        Status::Dragged => theme.palette.primary.strong,
    };
    Appearance {
        rail: Rail { colors: (color, theme.palette.secondary.base), width: 4, border_radius: 2 },
        handle: Handle {
            shape: HandleShape::Circle { radius: 7 },
            color,
            border_color: Color { r: 0, g: 0, b: 0, a: 0 },
            border_width: 0,
        },
    }
}

/// The default style of a slider.
pub fn default(theme: &Theme, status: Status) -> (appearance: Appearance)
    ensures
        appearance == default_look(*theme, status),
{
    let color = match status {
        Status::Active => theme.palette.primary.strong,
        Status::Hovered => theme.palette.primary.base,
        Status::Dragged => theme.palette.primary.strong,
    };
    Appearance {
        rail: Rail { colors: (color, theme.palette.secondary.base), width: 4, border_radius: 2 },
        handle: Handle {
            shape: HandleShape::Circle { radius: 7 },
            color,
            border_color: Color::transparent(),
            border_width: 0,
        },
    }
}

/// Something that gives a slider its look when no other style is set.
pub trait DefaultStyle {
    /// The look for each status.
    spec fn styled(&self, status: Status) -> Appearance;

    /// Returns the look of a slider in the given status.
    fn default_style(&self, status: Status) -> (appearance: Appearance)
        ensures
            appearance == self.styled(status),
    ;
}

impl DefaultStyle for Theme {
    open spec fn styled(&self, status: Status) -> Appearance {
        default_look(*self, status)
    }

    fn default_style(&self, status: Status) -> (appearance: Appearance) {
        default(self, status)
    }
}

impl DefaultStyle for Appearance {
    /// A look is its own style, whatever the status.
    open spec fn styled(&self, status: Status) -> Appearance {
        *self
    }

    fn default_style(&self, status: Status) -> (appearance: Appearance) {
        *self
    }
}

} // verus!
