use vstd::prelude::*;

use crate::text::{chars_of, is_whitespace, white_space};

verus! {

/// The character at `k`, or a line feed past the end.
pub open spec fn char_at(b: Seq<char>, k: int) -> char {
    if 0 <= k < b.len() {
        b[k]
    } else {
        '\n'
    }
}

/// Moving left from `k` while the character there is white space, down to
/// the start at most.
pub open spec fn back_over_space(b: Seq<char>, k: int) -> int
    decreases k,
{
    if k > 0 && white_space(char_at(b, k)) {
        back_over_space(b, k - 1)
    } else {
        k
    }
}

/// Moving left from `k` while the character there is not white space, down
/// to the start at most.
pub open spec fn back_over_word(b: Seq<char>, k: int) -> int
    decreases k,
{
    if k > 0 && !white_space(char_at(b, k)) {
        back_over_word(b, k - 1)
    } else {
        k
    }
}

/// Moving right from `k` while the character there is white space.
pub open spec fn forward_over_space(b: Seq<char>, k: int) -> int
    decreases b.len() - k,
{
    if 0 <= k < b.len() && white_space(b[k]) {
        forward_over_space(b, k + 1)
    } else {
        k
    }
}

/// Moving right from `k` while the character there is not white space.
pub open spec fn forward_over_word(b: Seq<char>, k: int) -> int
    decreases b.len() - k,
{
    if 0 <= k < b.len() && !white_space(b[k]) {
        forward_over_word(b, k + 1)
    } else {
        k
    }
}

/// Moving right over white space, then over a word, stays on the text.
pub proof fn lemma_forward_bounded(b: Seq<char>, k: int)
    requires
        0 <= k <= b.len(),
    ensures
        k <= forward_over_space(b, k) <= b.len(),
        forward_over_space(b, k) <= forward_over_word(b, forward_over_space(b, k)) <= b.len(),
    decreases b.len() - k,
{
    if k < b.len() {
        lemma_forward_bounded(b, k + 1);
    }
    lemma_forward_word_bounded(b, forward_over_space(b, k));
}

proof fn lemma_forward_word_bounded(b: Seq<char>, k: int)
    requires
        0 <= k <= b.len(),
    ensures
        k <= forward_over_word(b, k) <= b.len(),
    decreases b.len() - k,
{
    if k < b.len() {
        lemma_forward_word_bounded(b, k + 1);
    }
}

/// Where a backwards word deletion starting at `c` stops: the cursor steps
/// back from the end onto the last character, then over white space, then
/// over a word.
pub open spec fn left_word_stop(b: Seq<char>, c: int) -> int {
    let c0 = if c == b.len() {
        c - 1
    } else {
        c
    };
    back_over_word(b, back_over_space(b, c0))
}

/// The text after a backwards word deletion from `c`: the characters from
/// the stop (exclusive, or from the start when the stop is the start) up to
/// the cursor (inclusive) go.
pub open spec fn left_word_removed(b: Seq<char>, c: int) -> Seq<char> {
    let c0 = if c == b.len() {
        c - 1
    } else {
        c
    };
    let j = left_word_stop(b, c);
    if j == 0 {
        b.skip(c0 + 1)
    } else {
        b.take(j + 1) + b.skip(c0 + 1)
    }
}

/// A line of text being edited, with a cursor and a horizontal scroll.
#[derive(Debug, Default)]
pub struct Prompt {
    buffer: Vec<char>,
    cursor: usize,
    scroll: usize,
}

impl Prompt {
    /// The text.
    pub closed spec fn text(&self) -> Seq<char> {
        self.buffer@
    }

    /// The cursor: the index of the character before which typing inserts.
    pub closed spec fn cursor_pos(&self) -> int {
        self.cursor as int
    }

    /// The first character shown.
    pub closed spec fn scroll_pos(&self) -> int {
        self.scroll as int
    }

    pub open spec fn wf(&self) -> bool {
        0 <= self.cursor_pos() <= self.text().len()
    }

    /// An empty line.
    pub fn new() -> (r: Self)
        ensures
            r.wf(),
            r.text() == Seq::<char>::empty(),
            r.cursor_pos() == 0,
            r.scroll_pos() == 0,
    {
        Prompt { buffer: Vec::new(), cursor: 0, scroll: 0 }
    }

    /// The text.
    pub fn buffer(&self) -> (r: &Vec<char>)
        ensures
            r@ == self.text(),
    {
        &self.buffer
    }

    pub fn cursor(&self) -> (r: usize)
        ensures
            r == self.cursor_pos(),
    {
        self.cursor
    }

    pub fn scroll(&self) -> (r: usize)
        ensures
            r == self.scroll_pos(),
    {
        self.scroll
    }

    /// Scrolls as little as needed for the cursor to be among the `w`
    /// columns shown.
    pub fn sync_scroll_with_cursor(&mut self, w: usize)
        requires
            old(self).wf(),
        ensures
            final(self).wf(),
            final(self).text() == old(self).text(),
            final(self).cursor_pos() == old(self).cursor_pos(),
            final(self).scroll_pos() == if old(self).cursor_pos() < old(self).scroll_pos() {
                old(self).cursor_pos()
            } else if old(self).scroll_pos() + w <= old(self).cursor_pos() {
                old(self).cursor_pos() - w
            } else {
                old(self).scroll_pos()
            },
            final(self).scroll_pos() <= final(self).cursor_pos(),
            final(self).cursor_pos() <= final(self).scroll_pos() + w,
    {
        if self.cursor < self.scroll {
            self.scroll = self.cursor;
        } else if self.cursor - self.scroll >= w {
            self.scroll = self.cursor - w;
        }
    }

    /// Types `x` at the cursor.
    pub fn insert(&mut self, x: char)
        requires
            old(self).wf(),
            old(self).text().len() < usize::MAX,
        ensures
            final(self).wf(),
            final(self).text() == old(self).text().insert(old(self).cursor_pos(), x),
            final(self).cursor_pos() == old(self).cursor_pos() + 1,
            final(self).scroll_pos() == old(self).scroll_pos(),
    {
        if self.cursor > self.buffer.len() {
            self.cursor = self.buffer.len();
        }
        self.buffer.insert(self.cursor, x);
        self.cursor += 1;
    }

    /// Types `text` at the cursor.
    pub fn insert_str(&mut self, text: &str)
        requires
            old(self).wf(),
            old(self).text().len() + text@.len() < usize::MAX,
        ensures
            final(self).wf(),
            final(self).text() == old(self).text().take(old(self).cursor_pos()) + text@
                + old(self).text().skip(old(self).cursor_pos()),
            final(self).cursor_pos() == old(self).cursor_pos() + text@.len(),
            final(self).scroll_pos() == old(self).scroll_pos(),
    {
        let cs = chars_of(text);
        let ghost b = self.text();
        let ghost c = self.cursor_pos();
        let mut i: usize = 0;
        while i < cs.len()
            invariant
                self.wf(),
                i <= cs@.len(),
                cs@ == text@,
                b.len() + cs@.len() < usize::MAX,
                0 <= c <= b.len(),
                self.text() == b.take(c) + cs@.take(i as int) + b.skip(c),
                self.cursor_pos() == c + i,
                self.scroll_pos() == old(self).scroll_pos(),
            decreases cs@.len() - i,
        {
            self.insert(cs[i]);
            assert(self.text() =~= b.take(c) + cs@.take(i + 1) + b.skip(c));
            i += 1;
        }
        assert(cs@.take(cs@.len() as int) =~= cs@);
    }

    /// Moves the cursor one character left, if it can.
    pub fn left_char(&mut self)
        requires
            old(self).wf(),
        ensures
            final(self).wf(),
            final(self).text() == old(self).text(),
            final(self).cursor_pos() == if old(self).cursor_pos() > 0 {
                old(self).cursor_pos() - 1
            } else {
                0
            },
            final(self).scroll_pos() == old(self).scroll_pos(),
    {
        if self.cursor > 0 {
            self.cursor -= 1;
        }
    }

    /// Moves the cursor one character right, if it can.
    pub fn right_char(&mut self)
        requires
            old(self).wf(),
        ensures
            final(self).wf(),
            final(self).text() == old(self).text(),
            final(self).cursor_pos() == if old(self).cursor_pos() < old(self).text().len() {
                old(self).cursor_pos() + 1
            } else {
                old(self).cursor_pos()
            },
            final(self).scroll_pos() == old(self).scroll_pos(),
    {
        if self.cursor < self.buffer.len() {
            self.cursor += 1;
        }
    }

    /// The character under the cursor; a line feed past the end.
    fn at_cursor(&self) -> (r: char)
        ensures
            r == char_at(self.text(), self.cursor_pos()),
    {
        if self.cursor < self.buffer.len() {
            self.buffer[self.cursor]
        } else {
            '\n'
        }
    }

    /// Deletes backwards from the cursor: the character under it, the white
    /// space before, and the word before that; see [`left_word_removed`].
    pub fn remove_left_word(&mut self)
        requires
            old(self).wf(),
            old(self).text().len() > 0,
        ensures
            final(self).wf(),
            final(self).text() == left_word_removed(old(self).text(), old(self).cursor_pos()),
            final(self).cursor_pos() == left_word_stop(old(self).text(), old(self).cursor_pos()),
            final(self).scroll_pos() == old(self).scroll_pos(),
    {
        let ghost b = self.text();
        if self.cursor == self.buffer.len() {
            self.cursor -= 1;
        }
        let ghost c0 = self.cursor_pos();
        assert(self.text() =~= b.take(self.cursor + 1) + b.skip(c0 + 1));
        while self.cursor > 0 && is_whitespace(self.at_cursor())
            invariant
                0 <= self.cursor <= c0 < b.len(),
                self.text() == b.take(self.cursor + 1) + b.skip(c0 + 1),
                back_over_space(b, c0) == back_over_space(b, self.cursor as int),
                self.scroll_pos() == old(self).scroll_pos(),
            decreases self.cursor,
        {
            assert(char_at(self.text(), self.cursor as int) == char_at(b, self.cursor as int));
            self.buffer.remove(self.cursor);
            self.cursor -= 1;
            assert(self.text() =~= b.take(self.cursor + 1) + b.skip(c0 + 1));
        }
        assert(char_at(self.text(), self.cursor as int) == char_at(b, self.cursor as int));
        let ghost c1 = self.cursor as int;
        while self.cursor > 0 && !is_whitespace(self.at_cursor())
            invariant
                0 <= self.cursor <= c1 <= c0 < b.len(),
                self.text() == b.take(self.cursor + 1) + b.skip(c0 + 1),
                back_over_word(b, c1) == back_over_word(b, self.cursor as int),
                self.scroll_pos() == old(self).scroll_pos(),
            decreases self.cursor,
        {
            assert(char_at(self.text(), self.cursor as int) == char_at(b, self.cursor as int));
            self.buffer.remove(self.cursor);
            self.cursor -= 1;
            assert(self.text() =~= b.take(self.cursor + 1) + b.skip(c0 + 1));
        }
        assert(char_at(self.text(), self.cursor as int) == char_at(b, self.cursor as int));
        if self.cursor == 0 && self.buffer.len() > 0 {
            self.buffer.remove(self.cursor);
            assert(self.text() =~= b.skip(c0 + 1));
        }
    }

    /// Deletes forwards from the cursor: white space, then a word.
    pub fn remove_right_word(&mut self)
        requires
            old(self).wf(),
        ensures
            final(self).wf(),
            final(self).text() == old(self).text().take(old(self).cursor_pos()) + old(
                self,
            ).text().skip(
                forward_over_word(
                    old(self).text(),
                    forward_over_space(old(self).text(), old(self).cursor_pos()),
                ),
            ),
            final(self).cursor_pos() == old(self).cursor_pos(),
            final(self).scroll_pos() == old(self).scroll_pos(),
    {
        let ghost b = self.text();
        let ghost c = self.cursor_pos();
        let ghost mut k: int = c;
        assert(self.text() =~= b.take(c) + b.skip(k));
        while self.cursor < self.buffer.len() && is_whitespace(self.at_cursor())
            invariant
                self.cursor == c,
                0 <= c <= k <= b.len(),
                self.text() == b.take(c) + b.skip(k),
                forward_over_space(b, c) == forward_over_space(b, k),
                self.scroll_pos() == old(self).scroll_pos(),
            decreases b.len() - k,
        {
            assert(self.text()[c] == b[k]);
            self.buffer.remove(self.cursor);
            proof {
                k = k + 1;
            }
            assert(self.text() =~= b.take(c) + b.skip(k));
        }
        proof {
            if k < b.len() {
                assert(self.text()[c] == b[k]);
            }
        }
        let ghost k1 = k;
        while self.cursor < self.buffer.len() && !is_whitespace(self.at_cursor())
            invariant
                self.cursor == c,
                0 <= c <= k1 <= k <= b.len(),
                self.text() == b.take(c) + b.skip(k),
                forward_over_word(b, k1) == forward_over_word(b, k),
                self.scroll_pos() == old(self).scroll_pos(),
            decreases b.len() - k,
        {
            assert(self.text()[c] == b[k]);
            self.buffer.remove(self.cursor);
            proof {
                k = k + 1;
            }
            assert(self.text() =~= b.take(c) + b.skip(k));
        }
        proof {
            if k < b.len() {
                assert(self.text()[c] == b[k]);
            }
        }
    }

    /// Moves the cursor left over white space, then over a word.
    pub fn left_word(&mut self)
        requires
            old(self).wf(),
        ensures
            final(self).wf(),
            final(self).text() == old(self).text(),
            final(self).cursor_pos() == back_over_word(
                old(self).text(),
                back_over_space(old(self).text(), old(self).cursor_pos()),
            ),
            final(self).scroll_pos() == old(self).scroll_pos(),
    {
        let ghost b = self.text();
        let ghost c = self.cursor_pos();
        while self.cursor > 0 && is_whitespace(self.at_cursor())
            invariant
                self.wf(),
                self.text() == b,
                back_over_space(b, c) == back_over_space(b, self.cursor as int),
                self.scroll_pos() == old(self).scroll_pos(),
            decreases self.cursor,
        {
            self.cursor -= 1;
        }
        let ghost c1 = self.cursor_pos();
        while self.cursor > 0 && !is_whitespace(self.at_cursor())
            invariant
                self.wf(),
                self.text() == b,
                back_over_word(b, c1) == back_over_word(b, self.cursor as int),
                self.scroll_pos() == old(self).scroll_pos(),
            decreases self.cursor,
        {
            self.cursor -= 1;
        }
    }

    /// Moves the cursor right over white space, then over a word.
    pub fn right_word(&mut self)
        requires
            old(self).wf(),
        ensures
            final(self).wf(),
            final(self).text() == old(self).text(),
            final(self).cursor_pos() == forward_over_word(
                old(self).text(),
                forward_over_space(old(self).text(), old(self).cursor_pos()),
            ),
            final(self).scroll_pos() == old(self).scroll_pos(),
    {
        let ghost b = self.text();
        let ghost c = self.cursor_pos();
        while self.cursor < self.buffer.len() && is_whitespace(self.at_cursor())
            invariant
                self.wf(),
                self.text() == b,
                forward_over_space(b, c) == forward_over_space(b, self.cursor as int),
                self.scroll_pos() == old(self).scroll_pos(),
            decreases b.len() - self.cursor,
        {
            self.cursor += 1;
        }
        let ghost c1 = self.cursor_pos();
        while self.cursor < self.buffer.len() && !is_whitespace(self.at_cursor())
            invariant
                self.wf(),
                self.text() == b,
                forward_over_word(b, c1) == forward_over_word(b, self.cursor as int),
                self.scroll_pos() == old(self).scroll_pos(),
            decreases b.len() - self.cursor,
        {
            self.cursor += 1;
        }
    }

    /// Deletes the character before the cursor, if any.
    pub fn backspace(&mut self)
        requires
            old(self).wf(),
        ensures
            final(self).wf(),
            old(self).cursor_pos() > 0 ==> final(self).text() == old(self).text().remove(
                old(self).cursor_pos() - 1,
            ) && final(self).cursor_pos() == old(self).cursor_pos() - 1,
            old(self).cursor_pos() == 0 ==> final(self).text() == old(self).text()
                && final(self).cursor_pos() == 0,
            final(self).scroll_pos() == old(self).scroll_pos(),
    {
        if self.cursor > 0 {
            self.cursor -= 1;
            self.buffer.remove(self.cursor);
        }
    }

    /// Deletes the character under the cursor, if any.
    pub fn delete(&mut self)
        requires
            old(self).wf(),
        ensures
            final(self).wf(),
            final(self).text() == if old(self).cursor_pos() < old(self).text().len() {
                old(self).text().remove(old(self).cursor_pos())
            } else {
                old(self).text()
            },
            final(self).cursor_pos() == old(self).cursor_pos(),
            final(self).scroll_pos() == old(self).scroll_pos(),
    {
        if self.cursor < self.buffer.len() {
            self.buffer.remove(self.cursor);
        }
    }

    /// Moves the cursor to the start.
    pub fn home(&mut self)
        requires
            old(self).wf(),
        ensures
            final(self).wf(),
            final(self).text() == old(self).text(),
            final(self).cursor_pos() == 0,
            final(self).scroll_pos() == old(self).scroll_pos(),
    {
        self.cursor = 0;
    }

    /// Moves the cursor past the last character.
    pub fn end(&mut self)
        requires
            old(self).wf(),
        ensures
            final(self).wf(),
            final(self).text() == old(self).text(),
            final(self).cursor_pos() == old(self).text().len(),
            final(self).scroll_pos() == old(self).scroll_pos(),
    {
        self.cursor = self.buffer.len();
    }

    /// Empties the line.
    pub fn clear(&mut self)
        requires
            old(self).wf(),
        ensures
            final(self).wf(),
            final(self).text() == Seq::<char>::empty(),
            final(self).cursor_pos() == 0,
            final(self).scroll_pos() == old(self).scroll_pos(),
    {
        self.buffer.clear();
        self.cursor = 0;
    }

    /// Deletes everything from the cursor on.
    pub fn delete_until_end(&mut self)
        requires
            old(self).wf(),
        ensures
            final(self).wf(),
            final(self).text() == old(self).text().take(old(self).cursor_pos()),
            final(self).cursor_pos() == old(self).cursor_pos(),
            final(self).scroll_pos() == old(self).scroll_pos(),
    {
        let ghost b = self.text();
        assert(b.take(b.len() as int) =~= b);
        while self.cursor < self.buffer.len()
            invariant
                self.wf(),
                self.cursor == old(self).cursor_pos(),
                self.text().len() <= b.len(),
                self.text() == b.take(self.text().len() as int),
                b == old(self).text(),
                self.scroll_pos() == old(self).scroll_pos(),
            decreases self.text().len(),
        {
            self.buffer.pop();
            assert(self.text() =~= b.take(self.text().len() as int));
        }
    }
}

} // verus!
