//! Points, rectangles and the pointer, in whole device units.
use vstd::prelude::*;

verus! {

/// A position on the screen.
#[derive(Clone, Copy, Debug, PartialEq, Eq, Structural)]
pub struct Point {
    pub x: i32,
    pub y: i32,
}

/// The box that a widget was laid out in: its top left corner and its extent.
#[derive(Clone, Copy, Debug, PartialEq, Eq, Structural)]
pub struct Rectangle {
    pub x: i32,
    pub y: i32,
    pub width: u32,
    pub height: u32,
}

impl Rectangle {
    /// The first horizontal position to the right of the rectangle.
    pub open spec fn right(self) -> int {
        self.x + self.width
    }

    /// The first vertical position below the rectangle.
    pub open spec fn bottom(self) -> int {
        self.y + self.height
    }

    /// A point is inside from the left and top edges on, and up to but not
    /// including the right and bottom edges.
    pub open spec fn holds(self, point: Point) -> bool {
        &&& self.x <= point.x < self.right()
        &&& self.y <= point.y < self.bottom()
    }

    /// Whether `point` lies inside the rectangle.
    pub fn contains(&self, point: Point) -> (inside: bool)
        ensures
            inside == self.holds(point),
    {
        let px: i64 = point.x as i64;
        let py: i64 = point.y as i64;
        let left: i64 = self.x as i64;
        let top: i64 = self.y as i64;
        left <= px && px < left + self.width as i64 && top <= py && py < top + self.height as i64
    }
}

/// A drawn area. Unlike a [`Rectangle`] it may lie far outside the screen and
/// may have a negative extent, which covers nothing.
#[derive(Clone, Copy, Debug, PartialEq, Eq, Structural)]
pub struct Region {
    pub x: i128,
    pub y: i128,
    pub width: i128,
    pub height: i128,
}

/// Where the pointer is, if anywhere.
#[derive(Clone, Copy, Debug, PartialEq, Eq, Structural)]
pub enum Cursor {
    /// The pointer is at this position.
    Available(Point),
    /// There is no pointer, or it is outside the window.
    Unavailable,
}

impl Cursor {
    /// The pointer's position, wherever it is.
    pub open spec fn spec_position(self) -> Option<Point> {
        match self {
            Cursor::Available(point) => Some(point),
            Cursor::Unavailable => None,
        }
    }

    /// The pointer's position where it lies inside `bounds`.
    pub open spec fn spec_position_over(self, bounds: Rectangle) -> Option<Point> {
        match self {
            Cursor::Available(point) => if bounds.holds(point) {
                Some(point)
            } else {
                None
            },
            Cursor::Unavailable => None,
        }
    }

    /// Whether the pointer lies inside `bounds`.
    pub open spec fn spec_is_over(self, bounds: Rectangle) -> bool {
        self.spec_position_over(bounds).is_some()
    }

    /// The pointer's position, wherever it is.
    #[verifier::when_used_as_spec(spec_position)]
    pub fn position(self) -> (position: Option<Point>)
        ensures
            position == self.spec_position(),
    {
        match self {
            Cursor::Available(point) => Some(point),
            Cursor::Unavailable => None,
        }
    }

    /// The pointer's position where it lies inside `bounds`.
    #[verifier::when_used_as_spec(spec_position_over)]
    pub fn position_over(self, bounds: Rectangle) -> (position: Option<Point>)
        ensures
            position == self.spec_position_over(bounds),
    {
        match self {
            Cursor::Available(point) => if bounds.contains(point) {
                Some(point)
            } else {
                None
            },
            Cursor::Unavailable => None,
        }
    }

    /// Whether the pointer lies inside `bounds`.
    #[verifier::when_used_as_spec(spec_is_over)]
    pub fn is_over(self, bounds: Rectangle) -> (over: bool)
        ensures
            over == self.spec_is_over(bounds),
    {
        self.position_over(bounds).is_some()
    }
}

} // verus!
