use vstd::prelude::*;

verus! {

/// A cell of the terminal: column `x`, row `y`.
#[derive(Debug, Copy, Clone, PartialEq, Eq, Structural)]
pub struct Point {
    pub x: u16,
    pub y: u16,
}

/// An extent on the terminal, in cells.
#[derive(Debug, Copy, Clone, PartialEq, Eq, Structural)]
pub struct Size {
    pub width: u16,
    pub height: u16,
}

impl Point {
    /// The same point moved to column `x`.
    pub fn set_x(&self, x: u16) -> (r: Self)
        ensures
            r == (Point { x, y: self.y }),
    {
        Point { x, y: self.y }
    }

    /// The same point moved to row `y`.
    pub fn set_y(&self, y: u16) -> (r: Self)
        ensures
            r == (Point { x: self.x, y }),
    {
        Point { x: self.x, y }
    }
}

impl Size {
    /// The same size with width `w`.
    pub fn set_width(&self, w: u16) -> (r: Self)
        ensures
            r == (Size { width: w, height: self.height }),
    {
        Size { width: w, height: self.height }
    }

    /// The same size with height `h`.
    pub fn set_height(&self, h: u16) -> (r: Self)
        ensures
            r == (Size { width: self.width, height: h }),
    {
        Size { width: self.width, height: h }
    }
}

} // verus!
