use vstd::prelude::*;

use crate::fifobuffer::inc_qty;

verus! {

/// Position of the slot `k` places after `start` on a ring of `n` slots.
pub open spec fn ring_slot(start: int, k: int, n: int) -> int {
    if start + k < n {
        start + k
    } else {
        start + k - n
    }
}

/// `p` occurs in `s` starting at index `i`.
pub open spec fn occurs_at(s: Seq<u8>, p: Seq<u8>, i: int) -> bool {
    &&& 0 <= i
    &&& i + p.len() <= s.len()
    &&& s.subrange(i, i + p.len()) == p
}

/// The first index at or after `k` where `p` occurs in `s`.
pub open spec fn first_occurrence_from(s: Seq<u8>, p: Seq<u8>, k: int) -> Option<int>
    decreases s.len() - k,
{
    if k < 0 || k >= s.len() || k + p.len() > s.len() {
        None
    } else if occurs_at(s, p, k) {
        Some(k)
    } else {
        first_occurrence_from(s, p, k + 1)
    }
}

/// The first index where `p` occurs in `s`.
pub open spec fn first_occurrence(s: Seq<u8>, p: Seq<u8>) -> Option<int> {
    first_occurrence_from(s, p, 0)
}

/// `first_occurrence_from` finds the least occurrence at or after `k`.
pub proof fn lemma_first_occurrence_from(s: Seq<u8>, p: Seq<u8>, k: int)
    requires
        0 <= k,
        p.len() > 0,
    ensures
        match first_occurrence_from(s, p, k) {
            Some(i) => k <= i && occurs_at(s, p, i) && forall|j: int|
                k <= j < i ==> !occurs_at(s, p, j),
            None => forall|j: int| k <= j ==> !occurs_at(s, p, j),
        },
    decreases s.len() - k,
{
    if k >= s.len() || k + p.len() > s.len() {
    } else if occurs_at(s, p, k) {
    } else {
        lemma_first_occurrence_from(s, p, k + 1);
    }
}

/// The first occurrence of a non-empty pattern is the least index where it occurs.
pub proof fn lemma_first_occurrence(s: Seq<u8>, p: Seq<u8>)
    requires
        p.len() > 0,
    ensures
        match first_occurrence(s, p) {
            Some(i) => occurs_at(s, p, i) && forall|j: int| 0 <= j < i ==> !occurs_at(s, p, j),
            None => forall|j: int| !occurs_at(s, p, j),
        },
{
    lemma_first_occurrence_from(s, p, 0);
}

/// Relies on `<[u8]>::split_at_mut`: the two halves of a slice at `mid`.
/// A mutable slice keeps its length whatever is written through it, so each
/// half ends as long as it started.
#[verifier::external_body]
fn split_mut(slice: &mut [u8], mid: usize) -> (r: (&mut [u8], &mut [u8]))
    requires
        mid <= old(slice)@.len(),
    ensures
        r.0@ == old(slice)@.subrange(0, mid as int),
        r.1@ == old(slice)@.subrange(mid as int, old(slice)@.len() as int),
        final(slice)@ == final(r.0)@ + final(r.1)@,
        final(r.0)@.len() == r.0@.len(),
        final(r.1)@.len() == r.1@.len(),
{
    slice.split_at_mut(mid)
}

/// Error of a commit that claims more bytes than the buffer had room for.
#[derive(Debug, Clone, Copy, PartialEq, Eq, Structural)]
pub enum BufferError {
    OverCommit,
}

/// A fixed-capacity FIFO of bytes on a ring of `size` slots.
///
/// One slot always stays free, so that equal cursors mean "empty": at most
/// `size - 1` bytes are unread at any time.
#[derive(Debug)]
pub struct RingBuffer {
    buffer: Vec<u8>,
    size: usize,
    read_index: usize,
    write_index: usize,
}

impl View for RingBuffer {
    type V = Seq<u8>;

    /// The unread bytes, oldest first.
    closed spec fn view(&self) -> Seq<u8> {
        Seq::new(
            self.unread_len(),
            |i: int| self.buffer@[ring_slot(self.read_index as int, i, self.size as int)],
        )
    }
}

impl RingBuffer {
    /// Number of slots of the ring.
    pub closed spec fn capacity(&self) -> nat {
        self.size as nat
    }

    /// Slot where the next incoming byte goes.
    pub closed spec fn write_pos(&self) -> nat {
        self.write_index as nat
    }

    pub closed spec fn wf(&self) -> bool {
        &&& self.size == self.buffer@.len()
        &&& self.size > 0
        &&& self.read_index < self.size
        &&& self.write_index < self.size
    }

    closed spec fn unread_len(&self) -> nat {
        if self.read_index <= self.write_index {
            (self.write_index - self.read_index) as nat
        } else {
            (self.size - self.read_index + self.write_index) as nat
        }
    }

    /// How many more bytes the buffer can take.
    pub open spec fn free_len(&self) -> nat {
        (self.capacity() - 1 - self@.len()) as nat
    }

    /// The current contents of the free slots, in the order in which they
    /// are filled: starting at the write position and wrapping round.
    pub closed spec fn free_seq(&self) -> Seq<u8> {
        Seq::new(
            (self.size - 1 - self.unread_len()) as nat,
            |i: int| self.buffer@[ring_slot(self.write_index as int, i, self.size as int)],
        )
    }

    /// Length of the first writable region: the free slots up to the end of
    /// the ring.
    pub open spec fn first_region_len(&self) -> nat {
        if self.free_len() <= self.capacity() - self.write_pos() {
            self.free_len()
        } else {
            (self.capacity() - self.write_pos()) as nat
        }
    }

    /// At most `capacity - 1` bytes are ever unread, and the free bytes are
    /// exactly what is left of the ring.
    pub proof fn lemma_unread_bounded(&self)
        requires
            self.wf(),
        ensures
            self@.len() <= self.capacity() - 1,
            self.free_seq().len() == self.free_len(),
            self.write_pos() < self.capacity(),
    {
    }

    /// An empty buffer at the start of the ring offers all its usable room,
    /// `capacity - 1` bytes, as one region; a buffer holding `capacity - 1`
    /// unread bytes offers none.
    pub proof fn lemma_empty_and_full(&self)
        requires
            self.wf(),
        ensures
            self@.len() == 0 && self.write_pos() == 0 ==> self.first_region_len() == self.free_len()
                && self.free_len() == self.capacity() - 1,
            self@.len() == self.capacity() - 1 ==> self.free_len() == 0 && self.first_region_len()
                == 0 && self.free_seq().len() == 0,
    {
    }

    /// An empty buffer of `size` slots.
    pub fn new(size: usize) -> (r: Self)
        requires
            size > 0,
        ensures
            r.wf(),
            r@ == Seq::<u8>::empty(),
            r.capacity() == size,
            r.write_pos() == 0,
            r.free_len() == size - 1,
    {
        let buffer: Vec<u8> = vec![0u8; size];
        let r = RingBuffer { buffer, size, read_index: 0, write_index: 0 };
        assert(r@ =~= Seq::<u8>::empty());
        r
    }

    /// Number of unread bytes.
    pub fn unread(&self) -> (r: usize)
        requires
            self.wf(),
        ensures
            r == self@.len(),
    {
        if self.read_index <= self.write_index {
            self.write_index - self.read_index
        } else {
            self.size - self.read_index + self.write_index
        }
    }

    /// The free slots as at most two disjoint regions, ready to receive
    /// incoming bytes in order: the first runs from the write position, the
    /// second (empty unless the free space wraps round) from the start of the
    /// ring. One slot before the read position always stays out of both.
    pub fn slices(&mut self) -> (r: (&mut [u8], &mut [u8]))
        requires
            old(self).wf(),
        ensures
            final(self).wf(),
            final(self)@ == old(self)@,
            final(self).capacity() == old(self).capacity(),
            final(self).write_pos() == old(self).write_pos(),
            r.0@.len() == old(self).first_region_len(),
            r.0@ + r.1@ == old(self).free_seq(),
            final(self).free_seq() == final(r.0)@ + final(r.1)@,
    {
        let n = self.size;
        let w = self.write_index;
        let rd = self.read_index;
        let e1: usize = if rd > w {
            rd - 1
        } else if rd == 0 {
            n - 1
        } else {
            n
        };
        let e2: usize = if rd > w || rd == 0 {
            0
        } else {
            rd - 1
        };
        let ghost old_buf = self.buffer@;
        let ghost old_self = *self;
        let slice = self.buffer.as_mut_slice();
        let (head, tail) = split_mut(slice, w);
        let (first, tail_rest) = split_mut(tail, e1 - w);
        let (second, head_rest) = split_mut(head, e2);
        assert(first@ + second@ =~= old_self.free_seq());
        (first, second)
    }

    /// Commits the first `size` bytes of the free space, just written through
    /// the regions of `slices`, as unread data.
    pub fn wrote(&mut self, size: usize) -> (r: Result<(), BufferError>)
        requires
            old(self).wf(),
        ensures
            final(self).wf(),
            final(self).capacity() == old(self).capacity(),
            size <= old(self).free_len() ==> {
                &&& r is Ok
                &&& final(self)@ == old(self)@ + old(self).free_seq().take(size as int)
                &&& final(self).free_seq() == old(self).free_seq().skip(size as int)
            },
            size > old(self).free_len() ==> r == Err::<(), BufferError>(BufferError::OverCommit)
                && *final(self) == *old(self),
    {
        let free = self.size - 1 - self.unread();
        if size > free {
            return Err(BufferError::OverCommit);
        }
        let ghost before = *self;
        self.write_index = inc_qty(self.write_index, self.size, size);
        assert(self@ =~= before@ + before.free_seq().take(size as int));
        assert(self.free_seq() =~= before.free_seq().skip(size as int));
        Ok(())
    }

    /// Whether `target` occurs among the unread bytes at offset `start`.
    fn matches_at(&self, start: usize, target: &[u8]) -> (r: bool)
        requires
            self.wf(),
            start + target@.len() <= self@.len(),
        ensures
            r == occurs_at(self@, target@, start as int),
    {
        let mut j: usize = 0;
        while j < target.len()
            invariant
                self.wf(),
                start + target@.len() <= self@.len(),
                j <= target@.len(),
                forall|k: int| 0 <= k < j ==> self@[start + k] == target@[k],
            decreases target@.len() - j,
        {
            let at = inc_qty(self.read_index, self.size, start + j);
            if self.buffer[at] != target[j] {
                assert(self@.subrange(start as int, start + target@.len())[j as int] != target@[j as int]);
                return false;
            }
            j += 1;
        }
        assert(self@.subrange(start as int, start + target@.len()) =~= target@);
        true
    }

    /// Offset, from the oldest unread byte, of the first occurrence of
    /// `target` among the unread bytes, across the end of the ring too.
    pub fn find_first(&self, target: &[u8]) -> (r: Option<usize>)
        requires
            self.wf(),
            target@.len() > 0,
        ensures
            match r {
                Some(i) => first_occurrence(self@, target@) == Some(i as int),
                None => first_occurrence(self@, target@) is None,
            },
    {
        let len = self.unread();
        let plen = target.len();
        let mut i: usize = 0;
        while i < len && plen <= len - i
            invariant
                self.wf(),
                len == self@.len(),
                plen == target@.len(),
                plen > 0,
                i <= len,
                first_occurrence(self@, target@) == first_occurrence_from(self@, target@, i as int),
            decreases len - i,
        {
            if self.matches_at(i, target) {
                return Some(i);
            }
            i += 1;
        }
        None
    }

    /// Drops up to `up_to` unread bytes, never more than there are.
    pub fn discard(&mut self, up_to: usize)
        requires
            old(self).wf(),
        ensures
            final(self).wf(),
            final(self).capacity() == old(self).capacity(),
            final(self).write_pos() == old(self).write_pos(),
            final(self)@ == old(self)@.skip(
                if up_to <= old(self)@.len() { up_to as int } else { old(self)@.len() as int },
            ),
    {
        let len = self.unread();
        let k = if up_to <= len { up_to } else { len };
        let ghost before = *self;
        self.read_index = inc_qty(self.read_index, self.size, k);
        assert(self@ =~= before@.skip(k as int));
    }

    /// Takes out up to `up_to` of the oldest unread bytes; `None` when
    /// nothing is unread.
    pub fn consume(&mut self, up_to: usize) -> (r: Option<Vec<u8>>)
        requires
            old(self).wf(),
        ensures
            final(self).wf(),
            final(self).capacity() == old(self).capacity(),
            final(self).write_pos() == old(self).write_pos(),
            old(self)@.len() == 0 ==> r is None && *final(self) == *old(self),
            old(self)@.len() > 0 ==> {
                let k = if up_to <= old(self)@.len() {
                    up_to as int
                } else {
                    old(self)@.len() as int
                };
                &&& r matches Some(v)
                &&& v@ == old(self)@.take(k)
                &&& final(self)@ == old(self)@.skip(k)
            },
    {
        let len = self.unread();
        if len == 0 {
            return None;
        }
        let k = if up_to <= len { up_to } else { len };
        let rd = self.read_index;
        let mut out: Vec<u8> = Vec::with_capacity(k);
        if k <= self.size - rd {
            out.extend_from_slice(&self.buffer[rd..rd + k]);
        } else {
            out.extend_from_slice(&self.buffer[rd..self.size]);
            out.extend_from_slice(&self.buffer[0..k - (self.size - rd)]);
        }
        let ghost before = *self;
        self.read_index = inc_qty(rd, self.size, k);
        assert(out@ =~= before@.take(k as int));
        assert(self@ =~= before@.skip(k as int));
        Some(out)
    }
}

} // verus!
