use vstd::prelude::*;

use crate::tui::position::{Point, Size};

verus! {

/// A widget that can be moved and resized.
pub trait Resize {
    fn resize(&mut self, pos: Point, size: Size);
}

/// A widget that remembers whether it must be drawn again.
pub trait Dirty {
    /// Marks the widget as to be drawn again.
    fn dirty(&mut self);

    /// Marks the widget as drawn.
    fn clean(&mut self);
}

} // verus!
