use vstd::prelude::*;
use vstd::utf8::encode_utf8;

use crate::text::{is_whitespace, string_of, white_space};
use crate::tui::constants::MIN_BUFFER_LIST_WIDTH;
use crate::tui::position::{Point, Size};
use crate::tui::prompt::{forward_over_space, forward_over_word, lemma_forward_bounded};
use crate::tui::traits::{Dirty, Resize};

verus! {

/// A key, as the input line tells keys apart.
#[derive(Debug, Clone, Copy, PartialEq, Eq, Structural)]
pub enum KeyCode {
    Char(char),
    Up,
    Down,
    Left,
    Right,
    Backspace,
    Delete,
    Home,
    End,
    Enter,
    /// Any key the input line does not use.
    Other,
}

/// A key press, and whether Control was held.
#[derive(Debug, Clone, Copy, PartialEq, Eq, Structural)]
pub struct KeyEvent {
    pub code: KeyCode,
    pub control: bool,
}

/// Moving left from `k` while the character before it is white space.
pub open spec fn back_before_space(b: Seq<char>, k: int) -> int
    decreases k,
{
    if 0 < k <= b.len() && white_space(b[k - 1]) {
        back_before_space(b, k - 1)
    } else {
        k
    }
}

/// Moving left from `k` while the character before it is not white space.
pub open spec fn back_before_word(b: Seq<char>, k: int) -> int
    decreases k,
{
    if 0 < k <= b.len() && !white_space(b[k - 1]) {
        back_before_word(b, k - 1)
    } else {
        k
    }
}

/// `b` without the characters from `k` up to `end`.
pub open spec fn cut(b: Seq<char>, k: int, end: int) -> Seq<char> {
    b.take(k) + b.skip(end)
}

/// The text after Control-Delete at `c`: the word from the cursor goes,
/// and, when that leaves the text as long as it was when last drawn, the
/// white space after it too.
pub open spec fn word_deleted(b: Seq<char>, c: int, drawn: int) -> Seq<char> {
    let once = cut(b, c, forward_over_word(b, c));
    if drawn == once.len() {
        cut(once, c, forward_over_space(once, c))
    } else {
        once
    }
}

struct Cursor {
    pos: usize,
    dirty: bool,
}

impl Cursor {
    fn add(&mut self, rhs: usize)
        requires
            old(self).pos + rhs <= usize::MAX,
        ensures
            final(self).pos == old(self).pos + rhs,
            final(self).dirty,
    {
        self.pos += rhs;
        self.dirty = true;
    }

    fn sub(&mut self, rhs: usize)
        requires
            old(self).pos > 0 ==> rhs <= old(self).pos,
        ensures
            final(self).pos == if old(self).pos > 0 {
                old(self).pos - rhs
            } else {
                0
            },
            final(self).dirty,
    {
        if self.pos > 0 {
            self.pos -= rhs;
        }
        self.dirty = true;
    }

    fn sync(&mut self, len: usize)
        ensures
            final(self).pos == if old(self).pos > len {
                len
            } else {
                old(self).pos
            },
            final(self).dirty == (old(self).dirty || old(self).pos > len),
    {
        if self.pos > len {
            self.pos = len;
            self.dirty = true;
        }
    }

    fn set(&mut self, pos: usize)
        ensures
            final(self).pos == pos,
            final(self).dirty,
    {
        self.pos = pos;
        self.dirty = true;
    }

    fn should_move(&mut self, a: u16, b: usize) -> (r: Option<u16>)
        requires
            old(self).pos + a + b + 1 <= usize::MAX,
        ensures
            old(self).dirty ==> r == Some(#[verifier::truncate] ((old(self).pos + a + b + 1) as u16)),
            !old(self).dirty ==> r is None,
            !final(self).dirty,
            final(self).pos == old(self).pos,
    {
        if self.dirty {
            self.dirty = false;
            Some(#[verifier::truncate] ((self.pos + a as usize + b + 1) as u16))
        } else {
            None
        }
    }

    fn isize(&self) -> (r: isize)
        requires
            self.pos <= isize::MAX,
        ensures
            r == self.pos,
    {
        self.pos as isize
    }
}

/// The input line at the bottom of the screen.
pub struct Prompt {
    pos: Point,
    pub size: Size,
    text: String,
    dirty: bool,
    buffer: Vec<char>,
    prev_buffer_len: usize,
    cursor: Cursor,
}

impl Prompt {
    /// The text typed so far.
    pub closed spec fn typed(&self) -> Seq<char> {
        self.buffer@
    }

    /// The cursor.
    pub closed spec fn cursor_pos(&self) -> int {
        self.cursor.pos as int
    }

    /// The length of the text when it was last drawn.
    pub closed spec fn drawn_len(&self) -> int {
        self.prev_buffer_len as int
    }

    /// The line must be drawn again.
    pub closed spec fn needs_draw(&self) -> bool {
        self.dirty
    }

    /// The label shown before the text.
    pub closed spec fn label(&self) -> Seq<char> {
        self.text@
    }

    /// How many bytes the label takes.
    pub closed spec fn label_width(&self) -> nat {
        encode_utf8(self.text@).len()
    }

    /// Where the line is drawn.
    pub closed spec fn placed(&self) -> Point {
        self.pos
    }

    /// How much room the line takes.
    pub closed spec fn extent(&self) -> Size {
        self.size
    }

    /// The cursor is on the text and the text is of a size that cursor
    /// arithmetic cannot overflow.
    pub open spec fn ready(&self) -> bool {
        &&& 0 <= self.cursor_pos() <= self.typed().len()
        &&& self.typed().len() < isize::MAX
    }

    /// The input line for a terminal `width` columns wide and `height` rows
    /// high, empty, along the bottom row.
    pub fn new(width: u16, height: u16) -> (r: Self)
        requires
            width > MIN_BUFFER_LIST_WIDTH,
            height >= 1,
        ensures
            r.ready(),
            r.typed() == Seq::<char>::empty(),
            r.cursor_pos() == 0,
            r.drawn_len() == 0,
            r.needs_draw(),
            r.label() == "[@_Fulgore_(i)]"@,
            r.placed() == (Point { x: (MIN_BUFFER_LIST_WIDTH + 1) as u16, y: (height - 1) as u16 }),
            r.extent() == (Size { width: (width - MIN_BUFFER_LIST_WIDTH - 1) as u16, height: 1 }),
    {
        Self {
            pos: Point { x: MIN_BUFFER_LIST_WIDTH + 1, y: height - 1 },
            size: Size { width: width - MIN_BUFFER_LIST_WIDTH - 1, height: 1 },
            text: "[@_Fulgore_(i)]".to_owned(),
            dirty: true,
            buffer: Vec::with_capacity(1024),
            prev_buffer_len: 0,
            cursor: Cursor { pos: 0, dirty: true },
        }
    }

    /// The character at `idx`, counting a negative index as the start; a
    /// space past the end.
    fn safe_at(&self, idx: isize) -> (r: char)
        ensures
            r == if idx < 0 {
                if self.typed().len() > 0 {
                    self.typed()[0]
                } else {
                    ' '
                }
            } else if idx < self.typed().len() {
                self.typed()[idx as int]
            } else {
                ' '
            },
    {
        let idx = if idx < 0 {
            0
        } else {
            idx as usize
        };
        if idx < self.buffer.len() {
            self.buffer[idx]
        } else {
            ' '
        }
    }

    /// Deletes forwards from the cursor while the characters are white
    /// space (`space`) or while they are not.
    fn remove_chars(&mut self, space: bool)
        requires
            old(self).ready(),
        ensures
            final(self).ready(),
            final(self).cursor_pos() == old(self).cursor_pos(),
            final(self).typed() == cut(
                old(self).typed(),
                old(self).cursor_pos(),
                if space {
                    forward_over_space(old(self).typed(), old(self).cursor_pos())
                } else {
                    forward_over_word(old(self).typed(), old(self).cursor_pos())
                },
            ),
            final(self).drawn_len() == old(self).drawn_len(),
            final(self).needs_draw() == old(self).needs_draw(),
            final(self).label() == old(self).label(),
            final(self).placed() == old(self).placed(),
            final(self).size == old(self).size,
    {
        let ghost b = self.typed();
        let ghost c = self.cursor_pos();
        let ghost mut k: int = c;
        assert(self.typed() =~= cut(b, c, k));
        while self.cursor.pos < self.buffer.len() && is_whitespace(self.safe_at(self.cursor.isize()))
            == space
            invariant
                self.ready(),
                self.cursor_pos() == c,
                0 <= c <= k <= b.len() < isize::MAX,
                self.typed() == cut(b, c, k),
                space ==> forward_over_space(b, c) == forward_over_space(b, k),
                !space ==> forward_over_word(b, c) == forward_over_word(b, k),
                self.drawn_len() == old(self).drawn_len(),
                self.needs_draw() == old(self).needs_draw(),
                self.label() == old(self).label(),
                self.placed() == old(self).placed(),
                self.size == old(self).size,
            decreases b.len() - k,
        {
            assert(self.typed()[c] == b[k]);
            self.buffer.remove(self.cursor.pos);
            proof {
                k = k + 1;
            }
            assert(self.typed() =~= cut(b, c, k));
        }
        proof {
            if k < b.len() {
                assert(self.typed()[c] == b[k]);
            }
        }
    }

    fn key_delete(&mut self, event: KeyEvent)
        requires
            old(self).ready(),
        ensures
            final(self).ready(),
            final(self).cursor_pos() == old(self).cursor_pos(),
            event.control ==> final(self).typed() == word_deleted(
                old(self).typed(),
                old(self).cursor_pos(),
                old(self).drawn_len(),
            ) && final(self).needs_draw(),
            !event.control ==> if old(self).cursor_pos() < old(self).typed().len() {
                final(self).typed() == old(self).typed().remove(old(self).cursor_pos())
                    && final(self).needs_draw()
            } else {
                final(self).typed() == old(self).typed() && final(self).needs_draw()
                    == old(self).needs_draw()
            },
            final(self).drawn_len() == old(self).drawn_len(),
            final(self).label() == old(self).label(),
            final(self).placed() == old(self).placed(),
            final(self).size == old(self).size,
    {
        if event.control {
            self.dirty = true;
            self.remove_chars(false);
            if self.prev_buffer_len == self.buffer.len() {
                self.remove_chars(true);
            }
            return ;
        }
        if self.cursor.pos < self.buffer.len() {
            self.dirty = true;
            self.buffer.remove(self.cursor.pos);
        }
    }

    /// Deletes the character before the cursor, if any.
    fn key_backspace(&mut self)
        requires
            old(self).ready(),
        ensures
            final(self).ready(),
            old(self).cursor_pos() > 0 ==> final(self).typed() == old(self).typed().remove(
                old(self).cursor_pos() - 1,
            ) && final(self).cursor_pos() == old(self).cursor_pos() - 1 && final(self).needs_draw(),
            old(self).cursor_pos() == 0 ==> final(self).typed() == old(self).typed() && final(self).cursor_pos() == 0 && final(self).needs_draw() == old(self).needs_draw(),
            final(self).drawn_len() == old(self).drawn_len(),
            final(self).label() == old(self).label(),
            final(self).placed() == old(self).placed(),
            final(self).size == old(self).size,
    {
        if self.cursor.pos > 0 {
            self.dirty = true;
            self.cursor.sub(1);
            self.buffer.remove(self.cursor.pos);
        }
    }

    fn key_right(&mut self, event: KeyEvent)
        requires
            old(self).ready(),
        ensures
            final(self).typed() == old(self).typed(),
            final(self).cursor_pos() == 1 + if event.control {
                forward_over_word(
                    old(self).typed(),
                    forward_over_space(old(self).typed(), old(self).cursor_pos()),
                )
            } else {
                old(self).cursor_pos()
            },
            final(self).drawn_len() == old(self).drawn_len(),
            final(self).needs_draw() == old(self).needs_draw(),
            final(self).label() == old(self).label(),
            final(self).placed() == old(self).placed(),
            final(self).size == old(self).size,
    {
        if event.control {
            let ghost b = self.typed();
            let ghost c = self.cursor_pos();
            while self.cursor.pos < self.buffer.len() && is_whitespace(
                self.safe_at(self.cursor.isize()),
            )
                invariant
                    self.ready(),
                    self.typed() == b,
                    forward_over_space(b, c) == forward_over_space(b, self.cursor_pos()),
                    self.drawn_len() == old(self).drawn_len(),
                    self.needs_draw() == old(self).needs_draw(),
                    self.label() == old(self).label(),
                    self.placed() == old(self).placed(),
                    self.size == old(self).size,
                decreases b.len() - self.cursor_pos(),
            {
                self.cursor.add(1);
            }
            let ghost c1 = self.cursor_pos();
            while self.cursor.pos < self.buffer.len() && !is_whitespace(
                self.safe_at(self.cursor.isize()),
            )
                invariant
                    self.ready(),
                    self.typed() == b,
                    forward_over_word(b, c1) == forward_over_word(b, self.cursor_pos()),
                    self.drawn_len() == old(self).drawn_len(),
                    self.needs_draw() == old(self).needs_draw(),
                    self.label() == old(self).label(),
                    self.placed() == old(self).placed(),
                    self.size == old(self).size,
                decreases b.len() - self.cursor_pos(),
            {
                self.cursor.add(1);
            }
        }
        self.cursor.add(1);
    }

    fn key_left(&mut self, event: KeyEvent)
        requires
            old(self).ready(),
        ensures
            final(self).ready(),
            final(self).typed() == old(self).typed(),
            final(self).cursor_pos() == if event.control {
                back_before_word(
                    old(self).typed(),
                    back_before_space(old(self).typed(), old(self).cursor_pos()),
                )
            } else if old(self).cursor_pos() > 0 {
                old(self).cursor_pos() - 1
            } else {
                0
            },
            final(self).drawn_len() == old(self).drawn_len(),
            final(self).needs_draw() == old(self).needs_draw(),
            final(self).label() == old(self).label(),
            final(self).placed() == old(self).placed(),
            final(self).size == old(self).size,
    {
        if event.control {
            let ghost b = self.typed();
            let ghost c = self.cursor_pos();
            while self.cursor.pos > 0 && is_whitespace(self.safe_at(self.cursor.isize() - 1))
                invariant
                    self.ready(),
                    self.typed() == b,
                    back_before_space(b, c) == back_before_space(b, self.cursor_pos()),
                    self.drawn_len() == old(self).drawn_len(),
                    self.needs_draw() == old(self).needs_draw(),
                    self.label() == old(self).label(),
                    self.placed() == old(self).placed(),
                    self.size == old(self).size,
                decreases self.cursor_pos(),
            {
                self.cursor.sub(1);
            }
            let ghost c1 = self.cursor_pos();
            while self.cursor.pos > 0 && !is_whitespace(self.safe_at(self.cursor.isize() - 1))
                invariant
                    self.ready(),
                    self.typed() == b,
                    back_before_word(b, c1) == back_before_word(b, self.cursor_pos()),
                    self.drawn_len() == old(self).drawn_len(),
                    self.needs_draw() == old(self).needs_draw(),
                    self.label() == old(self).label(),
                    self.placed() == old(self).placed(),
                    self.size == old(self).size,
                decreases self.cursor_pos(),
            {
                self.cursor.sub(1);
            }
        } else {
            self.cursor.sub(1);
        }
    }

    /// Handles a key press; Enter hands out the typed line and empties it.
    pub fn key_press(&mut self, event: KeyEvent) -> (r: Option<String>)
        requires
            old(self).ready(),
            old(self).typed().len() + 1 < isize::MAX,
        ensures
            final(self).typed().len() < isize::MAX,
            0 <= final(self).cursor_pos() <= final(self).typed().len() + 1,
            final(self).drawn_len() == old(self).drawn_len(),
            final(self).label() == old(self).label(),
            final(self).placed() == old(self).placed(),
            final(self).extent() == old(self).extent(),
            event.code is Enter <==> r is Some,
            ({
                let b = old(self).typed();
                let c = old(self).cursor_pos();
                match event.code {
                    KeyCode::Char(ch) => final(self).typed() == b.insert(c, ch)
                        && final(self).cursor_pos() == c + 1 && final(self).needs_draw(),
                    KeyCode::Left => final(self).typed() == b && final(self).cursor_pos() == if event.control {
                        back_before_word(b, back_before_space(b, c))
                    } else if c > 0 {
                        c - 1
                    } else {
                        0
                    },
                    KeyCode::Right => final(self).typed() == b && final(self).cursor_pos() == 1 + if event.control {
                        forward_over_word(b, forward_over_space(b, c))
                    } else {
                        c
                    },
                    KeyCode::Backspace => if c > 0 {
                        final(self).typed() == b.remove(c - 1) && final(self).cursor_pos() == c - 1
                    } else {
                        final(self).typed() == b && final(self).cursor_pos() == 0
                    },
                    KeyCode::Delete => final(self).cursor_pos() == c && final(self).typed() == if event.control {
                        word_deleted(b, c, old(self).drawn_len())
                    } else if c < b.len() {
                        b.remove(c)
                    } else {
                        b
                    },
                    KeyCode::Home => final(self).typed() == b && final(self).cursor_pos() == 0,
                    KeyCode::End => final(self).typed() == b && final(self).cursor_pos() == b.len(),
                    KeyCode::Enter => r matches Some(line) && line@ == b && final(self).typed()
                        == Seq::<char>::empty() && final(self).cursor_pos() == 0
                        && final(self).needs_draw(),
                    _ => final(self).typed() == b && final(self).cursor_pos() == c,
                }
            }),
    {
        match event.code {
            KeyCode::Char(ch) => {
                self.dirty = true;
                self.buffer.insert(self.cursor.pos, ch);
                self.cursor.add(1);
            },
            KeyCode::Up => {},
            KeyCode::Down => {},
            KeyCode::Left => {
                self.key_left(event);
            },
            KeyCode::Right => {
                proof {
                    lemma_forward_bounded(self.typed(), self.cursor_pos());
                }
                self.key_right(event);
            },
            KeyCode::Backspace => {
                self.key_backspace();
            },
            KeyCode::Delete => {
                self.key_delete(event);
            },
            KeyCode::Home => {
                self.cursor.set(0);
            },
            KeyCode::End => {
                self.cursor.set(self.buffer.len());
            },
            KeyCode::Enter => {
                let result = string_of(self.buffer.as_slice());
                self.buffer.clear();
                self.cursor.set(0);
                self.dirty = true;
                return Some(result);
            },
            KeyCode::Other => {},
        }
        None
    }

    /// Brings the cursor back onto the text.
    pub fn sync_cursor(&mut self)
        requires
            old(self).typed().len() < isize::MAX,
        ensures
            final(self).ready(),
            final(self).typed() == old(self).typed(),
            final(self).cursor_pos() == if old(self).cursor_pos() > old(self).typed().len() {
                old(self).typed().len() as int
            } else {
                old(self).cursor_pos()
            },
            final(self).drawn_len() == old(self).drawn_len(),
            final(self).needs_draw() == old(self).needs_draw(),
            final(self).label() == old(self).label(),
            final(self).placed() == old(self).placed(),
            final(self).extent() == old(self).extent(),
    {
        let len = self.buffer.len();
        self.cursor.sync(len);
    }

    /// The column the terminal cursor has to move to, when it has to move:
    /// after the label, a space, and the text up to the cursor.
    pub fn cursor_column(&mut self) -> (r: Option<u16>)
        requires
            old(self).typed().len() < isize::MAX,
            old(self).typed().len() + old(self).label_width() + 65536 <= usize::MAX,
        ensures
            final(self).ready(),
            final(self).typed() == old(self).typed(),
            final(self).needs_draw() == old(self).needs_draw(),
            final(self).drawn_len() == old(self).drawn_len(),
            final(self).label() == old(self).label(),
            final(self).placed() == old(self).placed(),
            final(self).extent() == old(self).extent(),
            r is Some ==> r == Some(
                #[verifier::truncate] ((final(self).cursor_pos() + old(self).placed().x
                    + old(self).label_width() + 1) as u16),
            ),
    {
        let len = self.buffer.len();
        self.cursor.sync(len);
        let width = self.text.as_str().len();
        self.cursor.should_move(self.pos.x, width)
    }

    /// Starts drawing the line: `None` when it need not be drawn again;
    /// otherwise the number of blank cells to print after the text, to
    /// clear what a longer text left (none when the length is the same).
    pub fn redraw(&mut self) -> (r: Option<usize>)
        ensures
            final(self).typed() == old(self).typed(),
            final(self).cursor_pos() == old(self).cursor_pos(),
            final(self).label() == old(self).label(),
            final(self).placed() == old(self).placed(),
            final(self).extent() == old(self).extent(),
            !final(self).needs_draw(),
            !old(self).needs_draw() ==> r is None && final(self).drawn_len() == old(self).drawn_len(),
            old(self).needs_draw() ==> r == Some(
                if old(self).drawn_len() != old(self).typed().len() {
                    old(self).drawn_len() as usize
                } else {
                    0usize
                },
            ) && final(self).drawn_len() == old(self).typed().len(),
    {
        if self.dirty {
            self.dirty = false;
            self.cursor.dirty = true;
            let mut blanks: usize = 0;
            if self.buffer.len() != self.prev_buffer_len {
                blanks = self.prev_buffer_len;
                self.prev_buffer_len = self.buffer.len();
            }
            Some(blanks)
        } else {
            None
        }
    }

    /// The cursor.
    pub fn cursor(&self) -> (r: usize)
        ensures
            r == self.cursor_pos(),
    {
        self.cursor.pos
    }

    /// The typed text.
    pub fn buffer(&self) -> (r: &Vec<char>)
        ensures
            r@ == self.typed(),
    {
        &self.buffer
    }

    /// The label shown before the text.
    pub fn text(&self) -> (r: &String)
        ensures
            r@ == self.label(),
    {
        &self.text
    }

    /// Where the line is drawn.
    pub fn pos(&self) -> (r: Point)
        ensures
            r == self.placed(),
    {
        self.pos
    }
}

impl Resize for Prompt {
    fn resize(&mut self, pos: Point, size: Size) {
        self.size = size;
        self.pos = pos;
    }
}

impl Dirty for Prompt {
    fn dirty(&mut self) {
        self.dirty = true;
    }

    fn clean(&mut self) {
        self.dirty = false;
    }
}

} // verus!
