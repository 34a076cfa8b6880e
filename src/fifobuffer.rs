use vstd::prelude::*;

use crate::client::ringbuffer::{first_occurrence, ring_slot, BufferError, RingBuffer};

verus! {

/// The slot after `index` on a ring of `max` slots.
pub fn inc(index: usize, max: usize) -> (r: usize)
    requires
        index < max,
    ensures
        r == ring_slot(index as int, 1, max as int),
        r < max,
{
    inc_qty(index, max, 1)
}

/// The slot `qty` places after `index` on a ring of `max` slots, that is
/// `(index + qty) % max`, computed without overflow.
pub fn inc_qty(index: usize, max: usize, qty: usize) -> (r: usize)
    requires
        index < max,
        qty <= max,
    ensures
        r == ring_slot(index as int, qty as int, max as int),
        r < max,
{
    if qty < max - index {
        index + qty
    } else {
        qty - (max - index)
    }
}

/// A byte FIFO with the same behaviour as [`RingBuffer`], under the name and
/// method names that earlier callers use.
#[derive(Debug)]
pub struct FifoBuffer {
    ring: RingBuffer,
}

impl View for FifoBuffer {
    type V = Seq<u8>;

    /// The unread bytes, oldest first.
    closed spec fn view(&self) -> Seq<u8> {
        self.ring@
    }
}

impl FifoBuffer {
    pub closed spec fn ring(&self) -> RingBuffer {
        self.ring
    }

    pub open spec fn wf(&self) -> bool {
        self.ring().wf() && self@ == self.ring()@
    }

    /// An empty buffer of `size` slots, of which `size - 1` can hold data.
    pub fn new(size: usize) -> (r: Self)
        requires
            size > 0,
        ensures
            r.wf(),
            r@ == Seq::<u8>::empty(),
            r.ring().capacity() == size,
            r.ring().free_len() == size - 1,
    {
        FifoBuffer { ring: RingBuffer::new(size) }
    }

    /// The free space as two regions to be filled in order; see
    /// [`RingBuffer::slices`].
    pub fn get_vector_for_writing(&mut self) -> (r: (&mut [u8], &mut [u8]))
        requires
            old(self).wf(),
        ensures
            final(self).wf(),
            final(self)@ == old(self)@,
            final(self).ring().capacity() == old(self).ring().capacity(),
            final(self).ring().write_pos() == old(self).ring().write_pos(),
            r.0@.len() == old(self).ring().first_region_len(),
            r.0@ + r.1@ == old(self).ring().free_seq(),
            final(self).ring().free_seq() == final(r.0)@ + final(r.1)@,
    {
        self.ring.slices()
    }

    /// Commits `size` bytes written into the free space.
    pub fn wrote(&mut self, size: usize) -> (r: Result<(), BufferError>)
        requires
            old(self).wf(),
        ensures
            final(self).wf(),
            final(self).ring().capacity() == old(self).ring().capacity(),
            size <= old(self).ring().free_len() ==> {
                &&& r is Ok
                &&& final(self)@ == old(self)@ + old(self).ring().free_seq().take(size as int)
            },
            size > old(self).ring().free_len() ==> r == Err::<(), BufferError>(
                BufferError::OverCommit,
            ) && *final(self) == *old(self),
    {
        self.ring.wrote(size)
    }

    /// Offset of the first occurrence of `target` among the unread bytes.
    pub fn find_first(&self, target: &[u8]) -> (r: Option<usize>)
        requires
            self.wf(),
            target@.len() > 0,
        ensures
            match r {
                Some(i) => first_occurrence(self@, target@) == Some(i as int),
                None => first_occurrence(self@, target@) is None,
            },
    {
        self.ring.find_first(target)
    }

    /// Drops up to `up_to` unread bytes.
    pub fn discard(&mut self, up_to: usize)
        requires
            old(self).wf(),
        ensures
            final(self).wf(),
            final(self).ring().capacity() == old(self).ring().capacity(),
            final(self)@ == old(self)@.skip(
                if up_to <= old(self)@.len() { up_to as int } else { old(self)@.len() as int },
            ),
    {
        self.ring.discard(up_to)
    }

    /// Takes out up to `up_to` of the oldest unread bytes; `None` when
    /// nothing is unread.
    pub fn consume(&mut self, up_to: usize) -> (r: Option<Vec<u8>>)
        requires
            old(self).wf(),
        ensures
            final(self).wf(),
            final(self).ring().capacity() == old(self).ring().capacity(),
            old(self)@.len() == 0 ==> r is None && *final(self) == *old(self),
            old(self)@.len() > 0 ==> {
                let k = if up_to <= old(self)@.len() {
                    up_to as int
                } else {
                    old(self)@.len() as int
                };
                &&& r matches Some(v)
                &&& v@ == old(self)@.take(k)
                &&& final(self)@ == old(self)@.skip(k)
            },
    {
        self.ring.consume(up_to)
    }
}

} // verus!
