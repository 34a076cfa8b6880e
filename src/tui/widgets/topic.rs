use vstd::prelude::*;

use crate::tui::constants::MIN_BUFFER_LIST_WIDTH;
use crate::tui::position::{Point, Size};
use crate::tui::traits::{Dirty, Resize};

verus! {

/// The topic line, along the top.
pub struct Topic {
    pub pos: Point,
    pub size: Size,
    text: String,
    dirty: bool,
}

impl Topic {
    /// Where the widget is drawn.
    pub closed spec fn placed(&self) -> Point {
        self.pos
    }

    /// How much room the widget takes.
    pub closed spec fn extent(&self) -> Size {
        self.size
    }

    /// The widget must be drawn again.
    pub closed spec fn needs_draw(&self) -> bool {
        self.dirty
    }

    /// The text shown.
    pub closed spec fn caption(&self) -> Seq<char> {
        self.text@
    }

    /// The topic line for a terminal `width` columns wide.
    pub fn new(width: u16, _height: u16) -> (r: Self)
        requires
            width > MIN_BUFFER_LIST_WIDTH,
        ensures
            r.placed() == (Point { x: (MIN_BUFFER_LIST_WIDTH + 1) as u16, y: 0 }),
            r.extent() == (Size { width: (width - MIN_BUFFER_LIST_WIDTH - 1) as u16, height: 1 }),
            r.caption() == "Topic"@,
            r.needs_draw(),
    {
        Topic {
            pos: Point { x: MIN_BUFFER_LIST_WIDTH + 1, y: 0 },
            size: Size { width: width - MIN_BUFFER_LIST_WIDTH - 1, height: 1 },
            text: "Topic".to_owned(),
            dirty: true,
        }
    }
}

impl Resize for Topic {
    fn resize(&mut self, pos: Point, size: Size) {
        self.size = size;
        self.pos = pos;
    }
}

impl Dirty for Topic {
    fn dirty(&mut self) {
        self.dirty = true;
    }

    fn clean(&mut self) {
        self.dirty = false;
    }
}

impl Topic {
    /// Whether the widget must be drawn again.
    pub fn is_dirty(&self) -> (r: bool)
        ensures
            r == self.needs_draw(),
    {
        self.dirty
    }

    /// The text shown.
    pub fn text(&self) -> (r: &String)
        ensures
            r@ == self.caption(),
    {
        &self.text
    }
}

} // verus!
