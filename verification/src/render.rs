//! The three fills that draw a slider: the rail before the handle, the rail
//! after it, and the handle on top.
use vstd::prelude::*;
use crate::background::{Background, Color};
use crate::geometry::{Rectangle, Region};
use crate::numeric::Numeric;
use crate::rounding::floor_div;
use crate::style::{Appearance, HandleShape};

verus! {

/// The border of a filled area.
#[derive(Clone, Copy, Debug, PartialEq, Eq, Structural)]
pub struct Border {
    /// The radius of the corners.
    pub radius: u32,
    /// The width of the stroke.
    pub width: u32,
    /// The colour of the stroke.
    pub color: Color,
}

impl Border {
    /// A border that only rounds the corners: no stroke, no colour.
    pub fn rounded(radius: u32) -> (border: Border)
        ensures
            border == (Border { radius, width: 0, color: Color { r: 0, g: 0, b: 0, a: 0 } }),
    {
        Border { radius, width: 0, color: Color::transparent() }
    }
}

/// An area to fill and the border around it.
#[derive(Clone, Copy, Debug, PartialEq, Eq, Structural)]
pub struct Quad {
    pub bounds: Region,
    pub border: Border,
}

/// One fill operation: an area and what it is filled with.
#[derive(Clone, Copy, Debug, PartialEq)]
pub struct Fill {
    pub quad: Quad,
    pub background: Background,
}

/// The width of the handle, its height and the radius of its corners. A circle
/// is twice its radius wide and high; a rectangle is as high as the slider.
pub open spec fn handle_extent(shape: HandleShape, height: u32) -> (int, int, u32) {
    match shape {
        HandleShape::Circle { radius } => (2 * radius, 2 * radius, radius as u32),
        HandleShape::Rectangle { width, border_radius } => (
            width as int,
            height as int,
            border_radius,
        ),
    }
}

/// How far the handle stands from the left edge: the share of the travel (the
/// width that the handle leaves free) that `value` has covered of the way from
/// `start` to `end`, rounded down. Zero where the range is empty or a single
/// value.
pub open spec fn offset_of(value: int, start: int, end: int, travel: int) -> int {
    if start >= end {
        0
    } else {
        travel * (value - start) / (end - start)
    }
}

/// The vertical middle of the bounds.
pub open spec fn rail_line(bounds: Rectangle) -> int {
    bounds.y + bounds.height / 2
}

/// The rail from the left edge to the middle of the handle.
pub open spec fn rail_before(appearance: Appearance, offset: int, bounds: Rectangle) -> Fill {
    let (handle_width, _, _) = handle_extent(appearance.handle.shape, bounds.height);
    Fill {
        quad: Quad {
            bounds: Region {
                x: bounds.x as i128,
                y: (rail_line(bounds) - appearance.rail.width / 2) as i128,
                width: (offset + handle_width / 2) as i128,
                height: appearance.rail.width as i128,
            },
            border: Border {
                radius: appearance.rail.border_radius,
                width: 0,
                color: Color { r: 0, g: 0, b: 0, a: 0 },
            },
        },
        background: Background::Color(appearance.rail.colors.0),
    }
}

/// The rail from the middle of the handle to the right edge.
pub open spec fn rail_after(appearance: Appearance, offset: int, bounds: Rectangle) -> Fill {
    let (handle_width, _, _) = handle_extent(appearance.handle.shape, bounds.height);
    Fill {
        quad: Quad {
            bounds: Region {
                x: (bounds.x + offset + handle_width / 2) as i128,
                y: (rail_line(bounds) - appearance.rail.width / 2) as i128,
                width: (bounds.width - offset - handle_width / 2) as i128,
                height: appearance.rail.width as i128,
            },
            border: Border {
                radius: appearance.rail.border_radius,
                width: 0,
                color: Color { r: 0, g: 0, b: 0, a: 0 },
            },
        },
        background: Background::Color(appearance.rail.colors.1),
    }
}

/// The handle, `offset` from the left edge and centred on the rail.
pub open spec fn handle_fill(appearance: Appearance, offset: int, bounds: Rectangle) -> Fill {
    let (handle_width, handle_height, handle_radius) = handle_extent(
        appearance.handle.shape,
        bounds.height,
    );
    Fill {
        quad: Quad {
            bounds: Region {
                x: (bounds.x + offset) as i128,
                y: (rail_line(bounds) - handle_height / 2) as i128,
                width: handle_width as i128,
                height: handle_height as i128,
            },
            border: Border {
                radius: handle_radius,
                width: appearance.handle.border_width,
                color: appearance.handle.border_color,
            },
        },
        background: Background::Color(appearance.handle.color),
    }
}

/// The offset is no larger than the travel times the distance of the value
/// from the start, so every coordinate that is built on it fits in 128 bits.
pub proof fn lemma_offset_fits(value: int, start: int, end: int, travel: int)
    requires
        -0x2_0000_0000_0000_0000 < value - start < 0x2_0000_0000_0000_0000,
        -0x1_0000_0000 < travel < 0x1_0000_0000,
    ensures
        -0x2_0000_0000_0000_0000_0000_0000 < offset_of(value, start, end, travel)
            < 0x2_0000_0000_0000_0000_0000_0000,
{
    if start < end {
        let n = travel * (value - start);
        let d = end - start;
        assert(-0x2_0000_0000_0000_0000_0000_0000 < n < 0x2_0000_0000_0000_0000_0000_0000)
            by (nonlinear_arith)
            requires
                n == travel * (value - start),
                -0x2_0000_0000_0000_0000 < value - start < 0x2_0000_0000_0000_0000,
                -0x1_0000_0000 < travel < 0x1_0000_0000,
        ;
        assert(-0x2_0000_0000_0000_0000_0000_0000 < n / d < 0x2_0000_0000_0000_0000_0000_0000)
            by (nonlinear_arith)
            requires
                d > 0,
                -0x2_0000_0000_0000_0000_0000_0000 < n < 0x2_0000_0000_0000_0000_0000_0000,
        {
            let r = n % d;
            assert(n == d * (n / d) + r);
            assert(0 <= r < d);
            if n / d >= 0 {
                assert(d * (n / d) >= n / d);
            } else {
                assert(d * (n / d) <= n / d);
            }
        }
    }
}

/// The distance of the handle from the left edge of a slider that is `width`
/// wide, for a handle that is `handle_width` wide.
pub fn offset<T: Numeric>(value: T, start: T, end: T, width: u32, handle_width: u32) -> (offset:
    i128)
    ensures
        offset == offset_of(value.as_int(), start.as_int(), end.as_int(), width - handle_width),
        start.as_int() >= end.as_int() ==> offset == 0,
{
    proof {
        value.lemma_in_domain();
        start.lemma_in_domain();
        end.lemma_in_domain();
        lemma_offset_fits(value.as_int(), start.as_int(), end.as_int(), width - handle_width);
    }
    let low: i128 = start.widen();
    let high: i128 = end.widen();
    if low >= high {
        0
    } else {
        let travel: i128 = width as i128 - handle_width as i128;
        let covered: i128 = value.widen() - low;
        assert(-0x2_0000_0000_0000_0000_0000_0000 < travel * covered
            < 0x2_0000_0000_0000_0000_0000_0000) by (nonlinear_arith)
            requires
                -0x2_0000_0000_0000_0000 < covered < 0x2_0000_0000_0000_0000,
                -0x1_0000_0000 < travel < 0x1_0000_0000,
        ;
        floor_div(travel * covered, high - low)
    }
}

/// The fills that draw a slider with the given look at the given value, in the
/// order in which they are to be drawn: the handle comes last and covers the
/// rail beneath it.
pub fn paint<T: Numeric>(
    appearance: &Appearance,
    value: T,
    start: T,
    end: T,
    bounds: Rectangle,
) -> (fills: [Fill; 3])
    ensures
        ({
            let travel = bounds.width - handle_extent(appearance.handle.shape, bounds.height).0;
            let offset = offset_of(value.as_int(), start.as_int(), end.as_int(), travel);
            &&& fills[0] == rail_before(*appearance, offset, bounds)
            &&& fills[1] == rail_after(*appearance, offset, bounds)
            &&& fills[2] == handle_fill(*appearance, offset, bounds)
        }),
{
    let (handle_width, handle_height, handle_radius): (u32, u32, u32) =
        match appearance.handle.shape {
        HandleShape::Circle { radius } => (2 * (radius as u32), 2 * (radius as u32), radius as u32),
        HandleShape::Rectangle { width, border_radius } => (
            width as u32,
            bounds.height,
            border_radius,
        ),
    };
    proof {
        value.lemma_in_domain();
        start.lemma_in_domain();
        lemma_offset_fits(
            value.as_int(),
            start.as_int(),
            end.as_int(),
            bounds.width - handle_width,
        );
    }
    let offset: i128 = offset(value, start, end, bounds.width, handle_width);
    let rail_y: i128 = bounds.y as i128 + (bounds.height / 2) as i128;
    let rail_top: i128 = rail_y - (appearance.rail.width / 2) as i128;
    let half_handle: i128 = (handle_width / 2) as i128;
    let before = Fill {
        quad: Quad {
            bounds: Region {
                x: bounds.x as i128,
                y: rail_top,
                width: offset + half_handle,
                height: appearance.rail.width as i128,
            },
            border: Border::rounded(appearance.rail.border_radius),
        },
        background: Background::Color(appearance.rail.colors.0),
    };
    let after = Fill {
        quad: Quad {
            bounds: Region {
                x: bounds.x as i128 + offset + half_handle,
                y: rail_top,
                width: bounds.width as i128 - offset - half_handle,
                height: appearance.rail.width as i128,
            },
            border: Border::rounded(appearance.rail.border_radius),
        },
        background: Background::Color(appearance.rail.colors.1),
    };
    let handle = Fill {
        quad: Quad {
            bounds: Region {
                x: bounds.x as i128 + offset,
                y: rail_y - (handle_height / 2) as i128,
                width: handle_width as i128,
                height: handle_height as i128,
            },
            border: Border {
                radius: handle_radius,
                width: appearance.handle.border_width,
                color: appearance.handle.border_color,
            },
        },
        background: Background::Color(appearance.handle.color),
    };
    [before, after, handle]
}

} // verus!
