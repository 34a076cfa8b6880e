use vstd::prelude::*;

use crate::tui::constants::MIN_BUFFER_LIST_WIDTH;
use crate::tui::position::{Point, Size};
use crate::tui::traits::{Dirty, Resize};

verus! {

/// The list of open buffers, along the left edge.
pub struct BufferList {
    pub pos: Point,
    pub size: Size,
    list: Vec<String>,
    dirty: bool,
}

impl BufferList {
    /// Where the widget is drawn.
    pub closed spec fn placed(&self) -> Point {
        self.pos
    }

    /// How much room the widget takes.
    pub closed spec fn extent(&self) -> Size {
        self.size
    }

    /// The widget must be drawn again.
    pub closed spec fn needs_draw(&self) -> bool {
        self.dirty
    }

    /// The texts of the lines listed.
    pub closed spec fn listed(&self) -> Seq<String> {
        self.list@
    }

    /// The list for a terminal `height` rows high.
    pub fn new(_width: u16, height: u16) -> (r: Self)
        ensures
            r.placed() == (Point { x: 0, y: 0 }),
            r.extent() == (Size { width: MIN_BUFFER_LIST_WIDTH, height }),
            r.listed().len() == 0,
            r.needs_draw(),
    {
        BufferList {
            pos: Point { x: 0, y: 0 },
            size: Size { width: MIN_BUFFER_LIST_WIDTH, height },
            list: Vec::new(),
            dirty: true,
        }
    }
}

impl Resize for BufferList {
    fn resize(&mut self, pos: Point, size: Size) {
        self.size = size;
        self.pos = pos;
    }
}

impl Dirty for BufferList {
    fn dirty(&mut self) {
        self.dirty = true;
    }

    fn clean(&mut self) {
        self.dirty = false;
    }
}

impl BufferList {
    /// Whether the widget must be drawn again.
    pub fn is_dirty(&self) -> (r: bool)
        ensures
            r == self.needs_draw(),
    {
        self.dirty
    }

    /// The lines listed.
    pub fn list(&self) -> (r: &Vec<String>)
        ensures
            r@ == self.listed(),
    {
        &self.list
    }
}

} // verus!
