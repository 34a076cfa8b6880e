use vstd::prelude::*;

use crate::tui::constants::MIN_BUFFER_LIST_WIDTH;
use crate::tui::position::{Point, Size};
use crate::tui::traits::{Dirty, Resize};

verus! {

/// The status line, above the prompt.
pub struct Status {
    pos: Point,
    pub size: Size,
    text: String,
    dirty: bool,
}

impl Status {
    /// Where the widget is drawn.
    pub closed spec fn placed(&self) -> Point {
        self.pos
    }

    /// How much room the widget takes.
    pub closed spec fn extent(&self) -> Size {
        self.size
    }

    /// The widget must be drawn again.
    pub closed spec fn needs_draw(&self) -> bool {
        self.dirty
    }

    /// The text shown.
    pub closed spec fn caption(&self) -> Seq<char> {
        self.text@
    }

    /// The status line for a terminal `width` columns wide and `height` rows
    /// high.
    pub fn new(width: u16, height: u16) -> (r: Self)
        requires
            width > MIN_BUFFER_LIST_WIDTH,
            height >= 2,
        ensures
            r.placed() == (Point { x: (MIN_BUFFER_LIST_WIDTH + 1) as u16, y: (height - 2) as u16 }),
            r.extent() == (Size { width: (width - MIN_BUFFER_LIST_WIDTH - 1) as u16, height: 1 }),
            r.caption() == "STATUS BAR"@,
            r.needs_draw(),
    {
        Status {
            pos: Point { x: MIN_BUFFER_LIST_WIDTH + 1, y: height - 2 },
            size: Size { width: width - MIN_BUFFER_LIST_WIDTH - 1, height: 1 },
            text: "STATUS BAR".to_owned(),
            dirty: true,
        }
    }

    /// Where the line is drawn.
    pub fn pos(&self) -> (r: Point)
        ensures
            r == self.placed(),
    {
        self.pos
    }
}

impl Resize for Status {
    fn resize(&mut self, pos: Point, size: Size) {
        self.size = size;
        self.pos = pos;
    }
}

impl Dirty for Status {
    fn dirty(&mut self) {
        self.dirty = true;
    }

    fn clean(&mut self) {
        self.dirty = false;
    }
}

impl Status {
    /// Whether the widget must be drawn again.
    pub fn is_dirty(&self) -> (r: bool)
        ensures
            r == self.needs_draw(),
    {
        self.dirty
    }

    /// The text shown.
    pub fn text(&self) -> (r: &String)
        ensures
            r@ == self.caption(),
    {
        &self.text
    }
}

} // verus!
