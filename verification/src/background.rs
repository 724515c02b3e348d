//! Colours, gradients, and the background of an element.
use vstd::prelude::*;
use vstd::std_specs::convert::FromSpecImpl;

verus! {

/// The factor that leaves an alpha channel as it is. Factors count in 256ths.
pub const UNIT_FACTOR: u16 = 256;

/// The number of colour stops that a gradient can hold.
pub const MAX_STOPS: usize = 8;

/// A colour with an alpha channel; each channel runs from 0 to 255, and an
/// alpha of 0 is fully transparent.
#[derive(Clone, Copy, Debug, PartialEq, Eq, Structural)]
pub struct Color {
    pub r: u8,
    pub g: u8,
    pub b: u8,
    pub a: u8,
}

/// An alpha channel multiplied by `factor` 256ths, rounded down and held at
/// 255.
pub open spec fn scaled_alpha(alpha: u8, factor: u16) -> u8 {
    let product = alpha as int * factor as int / 256;
    if product > 255 {
        255u8
    } else {
        product as u8
    }
}

impl Color {
    /// This colour with its alpha channel scaled and the others kept.
    pub open spec fn scaled(self, factor: u16) -> Color {
        Color { a: scaled_alpha(self.a, factor), ..self }
    }

    /// Black without any opacity.
    pub fn transparent() -> (color: Color)
        ensures
            color == (Color { r: 0, g: 0, b: 0, a: 0 }),
    {
        Color { r: 0, g: 0, b: 0, a: 0 }
    }

    /// Scales the alpha channel of the colour by `factor` 256ths.
    pub fn scale_alpha(self, factor: u16) -> (color: Color)
        ensures
            color == self.scaled(factor),
    {
        assert(self.a as int * factor as int <= 255 * 65535) by (nonlinear_arith)
            requires
                0 <= self.a <= 255,
                0 <= factor <= 65535,
        ;
        let product: u32 = self.a as u32 * factor as u32 / 256;
        let alpha: u8 = if product > 255 {
            255
        } else {
            product as u8
        };
        Color { r: self.r, g: self.g, b: self.b, a: alpha }
    }
}

/// A colour at a place along a gradient.
#[derive(Clone, Copy, Debug, PartialEq, Eq, Structural)]
pub struct ColorStop {
    /// The place, from 0 at the start of the gradient to 65535 at its end.
    pub offset: u16,
    /// The colour at that place.
    pub color: Color,
}

/// A stop with the alpha of its colour scaled, where there is a stop.
pub open spec fn scaled_stop(stop: Option<ColorStop>, factor: u16) -> Option<ColorStop> {
    match stop {
        Some(stop) => Some(ColorStop { offset: stop.offset, color: stop.color.scaled(factor) }),
        None => None,
    }
}

/// Each stop of `stops` with the alpha of its colour scaled.
pub open spec fn scaled_stops(stops: Seq<Option<ColorStop>>, factor: u16) -> Seq<
    Option<ColorStop>,
> {
    Seq::new(stops.len(), |i: int| scaled_stop(stops[i], factor))
}

/// Whether no stop of `stops` has any opacity.
pub open spec fn stops_transparent(stops: Seq<Option<ColorStop>>) -> bool {
    forall|i: int|
        0 <= i < stops.len() ==> ((#[trigger] stops[i]) matches Some(stop) ==> stop.color.a == 0)
}

/// A gradient along a straight line.
#[derive(Clone, Copy, Debug, PartialEq)]
pub struct Linear {
    /// The direction of the line, in thousandths of a radian.
    pub angle: i32,
    /// The colours along the line; the places without one are skipped.
    pub stops: [Option<ColorStop>; 8],
}

impl Linear {
    /// Scales the alpha channel of every stop by `factor` 256ths; the angle
    /// and the places of the stops stay.
    pub fn scale_alpha(self, factor: u16) -> (linear: Linear)
        ensures
            linear.angle == self.angle,
            linear.stops@ == scaled_stops(self.stops@, factor),
    {
        let mut stops: [Option<ColorStop>; 8] = self.stops;
        let mut index: usize = 0;
        while index < 8
            invariant
                index <= 8,
                forall|i: int|
                    0 <= i < index ==> #[trigger] stops[i] == scaled_stop(self.stops[i], factor),
                forall|i: int| index <= i < 8 ==> #[trigger] stops[i] == self.stops[i],
            decreases 8 - index,
        {
            let scaled: Option<ColorStop> = match stops[index] {
                Some(stop) => Some(
                    ColorStop { offset: stop.offset, color: stop.color.scale_alpha(factor) },
                ),
                None => None,
            };
            stops[index] = scaled;
            index += 1;
        }
        assert(stops@ =~= scaled_stops(self.stops@, factor));
        Linear { angle: self.angle, stops }
    }
}

/// A fill that changes from colour to colour.
#[derive(Clone, Copy, Debug, PartialEq)]
pub enum Gradient {
    /// Along a straight line.
    Linear(Linear),
}

impl Gradient {
    /// Scales the alpha channel of every stop by `factor` 256ths.
    pub fn scale_alpha(self, factor: u16) -> (gradient: Gradient)
        ensures
            gradient->Linear_0.angle == self->Linear_0.angle,
            gradient->Linear_0.stops@ == scaled_stops(self->Linear_0.stops@, factor),
    {
        match self {
            Gradient::Linear(linear) => Gradient::Linear(linear.scale_alpha(factor)),
        }
    }
}

/// The background of some element.
#[derive(Clone, Copy, Debug, PartialEq)]
pub enum Background {
    /// A solid colour.
    Color(Color),
    /// A change from colour to colour.
    Gradient(Gradient),
}

impl Background {
    /// Whether `scaled` is this background with every alpha channel scaled by
    /// `factor` 256ths: a solid colour keeps its other channels, a gradient
    /// keeps its angle and the places of its stops.
    pub open spec fn scales_to(self, factor: u16, scaled: Background) -> bool {
        match self {
            Background::Color(color) => scaled == Background::Color(color.scaled(factor)),
            Background::Gradient(Gradient::Linear(linear)) => {
                &&& scaled matches Background::Gradient(Gradient::Linear(other))
                &&& other.angle == linear.angle
                &&& other.stops@ == scaled_stops(linear.stops@, factor)
            },
        }
    }

    /// Whether nothing of this background has any opacity.
    pub open spec fn is_transparent(self) -> bool {
        match self {
            Background::Color(color) => color.a == 0,
            Background::Gradient(Gradient::Linear(linear)) => stops_transparent(linear.stops@),
        }
    }

    /// Scales the alpha channel of the background by `factor` 256ths. A factor
    /// of [`UNIT_FACTOR`] gives the background back, a factor of zero one
    /// without any opacity.
    pub fn scale_alpha(self, factor: u16) -> (scaled: Background)
        ensures
            self.scales_to(factor, scaled),
            factor == UNIT_FACTOR ==> scaled == self,
            factor == 0 ==> scaled.is_transparent(),
    {
        proof {
            lemma_scale_by_unit(self);
            lemma_scale_by_zero(self);
        }
        match self {
            Background::Color(color) => Background::Color(color.scale_alpha(factor)),
            Background::Gradient(gradient) => Background::Gradient(gradient.scale_alpha(factor)),
        }
    }
}

/// Scaling determines its result: two backgrounds that one background scales
/// to by one factor are the same.
pub proof fn lemma_scale_determined(
    background: Background,
    factor: u16,
    first: Background,
    second: Background,
)
    requires
        background.scales_to(factor, first),
        background.scales_to(factor, second),
    ensures
        first == second,
{
    match background {
        Background::Color(_) => {},
        Background::Gradient(Gradient::Linear(_)) => {
            let a = first->Gradient_0->Linear_0;
            let b = second->Gradient_0->Linear_0;
            assert(a.stops =~= b.stops);
        },
    }
}

/// Scaling by the unit factor changes nothing: whatever a background scales to
/// by it is that background.
pub proof fn lemma_scale_by_unit(background: Background)
    ensures
        forall|scaled: Background| #[trigger]
            background.scales_to(UNIT_FACTOR, scaled) ==> scaled == background,
{
    assert forall|alpha: u8| #[trigger] scaled_alpha(alpha, 256) == alpha by {}
    assert forall|scaled: Background| #[trigger]
        background.scales_to(UNIT_FACTOR, scaled) implies scaled == background by {
        match background {
            Background::Color(_) => {},
            Background::Gradient(Gradient::Linear(linear)) => {
                let other = scaled->Gradient_0->Linear_0;
                assert forall|i: int| 0 <= i < 8 implies other.stops[i] == linear.stops[i] by {
                    assert(other.stops@[i] == scaled_stop(linear.stops@[i], 256));
                }
                assert(other.stops =~= linear.stops);
            },
        }
    }
}

/// Scaling by zero leaves no opacity: whatever a background scales to by zero
/// is transparent.
pub proof fn lemma_scale_by_zero(background: Background)
    ensures
        forall|scaled: Background| #[trigger]
            background.scales_to(0, scaled) ==> scaled.is_transparent(),
{
    assert forall|alpha: u8| #[trigger] scaled_alpha(alpha, 0) == 0 by {}
    assert forall|scaled: Background| #[trigger]
        background.scales_to(0, scaled) implies scaled.is_transparent() by {
        match background {
            Background::Color(_) => {},
            Background::Gradient(Gradient::Linear(linear)) => {
                let other = scaled->Gradient_0->Linear_0;
                assert forall|i: int| 0 <= i < other.stops@.len() implies ((
                #[trigger] other.stops@[i]) matches Some(stop) ==> stop.color.a == 0) by {
                    assert(other.stops@[i] == scaled_stop(linear.stops@[i], 0));
                }
            },
        }
    }
}

impl From<Color> for Background {
    fn from(color: Color) -> (background: Background) {
        Background::Color(color)
    }
}

impl FromSpecImpl<Color> for Background {
    open spec fn obeys_from_spec() -> bool {
        true
    }

    open spec fn from_spec(color: Color) -> Background {
        Background::Color(color)
    }
}

impl From<Gradient> for Background {
    fn from(gradient: Gradient) -> (background: Background) {
        Background::Gradient(gradient)
    }
}

impl FromSpecImpl<Gradient> for Background {
    open spec fn obeys_from_spec() -> bool {
        true
    }

    open spec fn from_spec(gradient: Gradient) -> Background {
        Background::Gradient(gradient)
    }
}

impl From<Linear> for Background {
    fn from(linear: Linear) -> (background: Background) {
        Background::Gradient(Gradient::Linear(linear))
    }
}

impl FromSpecImpl<Linear> for Background {
    open spec fn obeys_from_spec() -> bool {
        true
    }

    open spec fn from_spec(linear: Linear) -> Background {
        Background::Gradient(Gradient::Linear(linear))
    }
}

} // verus!
