use vstd::prelude::*;

use crate::tui::constants::MIN_NICK_LIST_WIDTH;
use crate::tui::position::{Point, Size};
use crate::tui::traits::{Dirty, Resize};

verus! {

/// The list of nicknames in the channel, along the right edge.
pub struct NickList {
    pub pos: Point,
    pub size: Size,
    list: Vec<String>,
    dirty: bool,
}

impl NickList {
    /// Where the widget is drawn.
    pub closed spec fn placed(&self) -> Point {
        self.pos
    }

    /// How much room the widget takes.
    pub closed spec fn extent(&self) -> Size {
        self.size
    }

    /// The widget must be drawn again.
    pub closed spec fn needs_draw(&self) -> bool {
        self.dirty
    }

    /// The texts of the lines listed.
    pub closed spec fn listed(&self) -> Seq<String> {
        self.list@
    }

    /// The list for a terminal `width` columns wide and `height` rows high,
    /// between the topic line and the status line.
    pub fn new(width: u16, height: u16) -> (r: Self)
        requires
            width >= MIN_NICK_LIST_WIDTH,
            height >= 3,
        ensures
            r.placed() == (Point { x: (width - MIN_NICK_LIST_WIDTH) as u16, y: 1 }),
            r.extent() == (Size { width: MIN_NICK_LIST_WIDTH, height: (height - 3) as u16 }),
            r.listed().len() == 0,
            r.needs_draw(),
    {
        NickList {
            pos: Point { x: width - MIN_NICK_LIST_WIDTH, y: 1 },
            size: Size { width: MIN_NICK_LIST_WIDTH, height: height - 3 },
            list: Vec::new(),
            dirty: true,
        }
    }
}

impl Resize for NickList {
    fn resize(&mut self, pos: Point, size: Size) {
        self.size = size;
        self.pos = pos;
    }
}

impl Dirty for NickList {
    fn dirty(&mut self) {
        self.dirty = true;
    }

    fn clean(&mut self) {
        self.dirty = false;
    }
}

impl NickList {
    /// Whether the widget must be drawn again.
    pub fn is_dirty(&self) -> (r: bool)
        ensures
            r == self.needs_draw(),
    {
        self.dirty
    }

    /// The lines listed.
    pub fn list(&self) -> (r: &Vec<String>)
        ensures
            r@ == self.listed(),
    {
        &self.list
    }
}

} // verus!
