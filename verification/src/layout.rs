//! Sizing of a widget that has no children.
use vstd::prelude::*;
use crate::geometry::Rectangle;

verus! {

/// How much room a widget asks for along one axis.
#[derive(Clone, Copy, Debug, PartialEq, Eq, Structural)]
pub enum Length {
    /// All the room that is left.
    Fill,
    /// A share of the room that is left, in proportion to the number.
    FillPortion(u16),
    /// As little room as possible.
    Shrink,
    /// This much room.
    Fixed(u32),
}

/// An extent along each axis.
#[derive(Clone, Copy, Debug, PartialEq, Eq, Structural)]
pub struct Size {
    pub width: u32,
    pub height: u32,
}

/// What a widget asks for along each axis.
#[derive(Clone, Copy, Debug, PartialEq, Eq, Structural)]
pub struct SizePolicy {
    pub width: Length,
    pub height: Length,
}

/// The least and the most room that a container grants.
#[derive(Clone, Copy, Debug, PartialEq, Eq, Structural)]
pub struct Limits {
    pub min: Size,
    pub max: Size,
}

/// The outcome of laying out a widget without children: its box, placed at the
/// origin of its container.
#[derive(Clone, Copy, Debug, PartialEq, Eq, Structural)]
pub struct Node {
    pub bounds: Rectangle,
}

/// The extent that a widget with nothing to measure gets along one axis: the
/// most that is granted where it fills, the asked amount held between the least
/// and the most where it is fixed (the least where the two cross), and the least
/// where it shrinks.
pub open spec fn resolved(length: Length, min: u32, max: u32) -> u32 {
    match length {
        Length::Fill => max,
        Length::FillPortion(_) => max,
        Length::Fixed(amount) => {
            let capped = if amount <= max {
                amount
            } else {
                max
            };
            if capped >= min {
                capped
            } else {
                min
            }
        },
        Length::Shrink => min,
    }
}

/// Resolves one axis of a widget without content.
pub fn resolve(length: Length, min: u32, max: u32) -> (extent: u32)
    ensures
        extent == resolved(length, min, max),
{
    match length {
        Length::Fill => max,
        Length::FillPortion(_) => max,
        Length::Fixed(amount) => {
            let capped: u32 = if amount <= max {
                amount
            } else {
                max
            };
            if capped >= min {
                capped
            } else {
                min
            }
        },
        Length::Shrink => min,
    }
}

/// Lays out a widget that has no children and no content to measure.
pub fn atomic(limits: &Limits, width: Length, height: Length) -> (node: Node)
    ensures
        node.bounds == (Rectangle {
            x: 0,
            y: 0,
            width: resolved(width, limits.min.width, limits.max.width),
            height: resolved(height, limits.min.height, limits.max.height),
        }),
{
    Node {
        bounds: Rectangle {
            x: 0,
            y: 0,
            width: resolve(width, limits.min.width, limits.max.width),
            height: resolve(height, limits.min.height, limits.max.height),
        },
    }
}

} // verus!
