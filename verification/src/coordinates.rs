//! Where a widget sits on the display surface and how much room it has.

use vstd::prelude::*;

verus! {

/// The origin cell of a widget, in the coordinate space of the enclosing
/// display surface.
#[derive(Clone, Copy, Debug, PartialEq, Eq, Structural)]
pub struct Position {
    pub x: u16,
    pub y: u16,
}

/// The largest number of columns and rows that a widget may show.
#[derive(Clone, Copy, Debug, PartialEq, Eq, Structural)]
pub struct Size {
    pub width: u16,
    pub height: u16,
}

/// Origin and extent of a widget's viewport.
#[derive(Clone, Copy, Debug, PartialEq, Eq, Structural)]
pub struct Coordinates {
    pub size: Size,
    pub position: Position,
}

impl Position {
    /// The origin as a pair `(x, y)`.
    pub fn position(&self) -> (xy: (u16, u16))
        ensures
            xy == (self.x, self.y),
    {
        (self.x, self.y)
    }
}

impl Size {
    /// The extent as a pair `(width, height)`.
    pub fn size(&self) -> (wh: (u16, u16))
        ensures
            wh == (self.width, self.height),
    {
        (self.width, self.height)
    }
}

impl Coordinates {
    /// The coordinates of a widget that has not been laid out yet.
    pub open spec fn empty() -> Coordinates {
        Coordinates {
            size: Size { width: 0, height: 0 },
            position: Position { x: 0, y: 0 },
        }
    }

    /// An empty viewport at the origin of the display surface.
    pub fn new() -> (c: Coordinates)
        ensures
            c == Coordinates::empty(),
    {
        Coordinates {
            size: Size { width: 0, height: 0 },
            position: Position { x: 0, y: 0 },
        }
    }

    pub fn size(&self) -> (s: &Size)
        ensures
            *s == self.size,
    {
        &self.size
    }

    pub fn position(&self) -> (p: &Position)
        ensures
            *p == self.position,
    {
        &self.position
    }
}

} // verus!
