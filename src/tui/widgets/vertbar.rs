use vstd::prelude::*;

use crate::tui::constants::{MIN_BUFFER_LIST_WIDTH, MIN_NICK_LIST_WIDTH};
use crate::tui::position::{Point, Size};
use crate::tui::traits::{Dirty, Resize};

verus! {

/// A vertical separator.
pub struct VertBar {
    pub pos: Point,
    pub size: Size,
    ch: char,
    dirty: bool,
}

/// Which separator: right of the buffer list, or left of the nickname list.
pub enum VertBarType {
    Left,
    Right,
}

impl VertBar {
    /// Where the widget is drawn.
    pub closed spec fn placed(&self) -> Point {
        self.pos
    }

    /// How much room the widget takes.
    pub closed spec fn extent(&self) -> Size {
        self.size
    }

    /// The widget must be drawn again.
    pub closed spec fn needs_draw(&self) -> bool {
        self.dirty
    }

    /// The character the separator is drawn with.
    pub closed spec fn glyph(&self) -> char {
        self.ch
    }

    /// The separator of kind `vert_bar_type` for a terminal `width` columns
    /// wide and `height` rows high.
    pub fn new(width: u16, height: u16, vert_bar_type: VertBarType) -> (r: Self)
        requires
            vert_bar_type is Right ==> width > MIN_NICK_LIST_WIDTH && height >= 3,
        ensures
            r.glyph() == '\u{2502}',
            r.needs_draw(),
            vert_bar_type is Left ==> r.placed() == (Point { x: MIN_BUFFER_LIST_WIDTH, y: 0 }) && r.extent()
                == (Size { width: 1, height }),
            vert_bar_type is Right ==> r.placed() == (Point {
                x: (width - MIN_NICK_LIST_WIDTH - 1) as u16,
                y: 1,
            }) && r.extent() == (Size { width: 1, height: (height - 3) as u16 }),
    {
        match vert_bar_type {
            VertBarType::Left => VertBar {
                pos: Point { x: MIN_BUFFER_LIST_WIDTH, y: 0 },
                size: Size { width: 1, height },
                ch: '\u{2502}',
                dirty: true,
            },
            VertBarType::Right => VertBar {
                pos: Point { x: width - MIN_NICK_LIST_WIDTH - 1, y: 1 },
                size: Size { width: 1, height: height - 3 },
                ch: '\u{2502}',
                dirty: true,
            },
        }
    }
}

impl Resize for VertBar {
    fn resize(&mut self, pos: Point, size: Size) {
        self.size = size;
        self.pos = pos;
    }
}

impl Dirty for VertBar {
    fn dirty(&mut self) {
        self.dirty = true;
    }

    fn clean(&mut self) {
        self.dirty = false;
    }
}

impl VertBar {
    /// Whether the widget must be drawn again.
    pub fn is_dirty(&self) -> (r: bool)
        ensures
            r == self.needs_draw(),
    {
        self.dirty
    }

    /// The character the separator is drawn with.
    pub fn ch(&self) -> (r: char)
        ensures
            r == self.glyph(),
    {
        self.ch
    }
}

} // verus!
