//! A bounded queue of bytes.

use vstd::prelude::*;

use std::collections::VecDeque;

verus! {

/// Bytes on their way to the device, first in first out.
pub struct StreamBuffer {
    bytes: VecDeque<u8>,
    capacity: usize,
}

impl View for StreamBuffer {
    type V = Seq<u8>;

    closed spec fn view(&self) -> Seq<u8> {
        self.bytes@
    }
}

impl StreamBuffer {
    /// How many bytes the buffer can hold.
    pub closed spec fn capacity(&self) -> nat {
        self.capacity as nat
    }

    /// The buffer holds no more than it can.
    pub open spec fn wf(&self) -> bool {
        self@.len() <= self.capacity()
    }

    /// An empty buffer.
    pub fn new(capacity: usize) -> (buffer: StreamBuffer)
        ensures
            buffer.wf(),
            buffer@ == Seq::<u8>::empty(),
            buffer.capacity() == capacity,
    {
        StreamBuffer { bytes: VecDeque::new(), capacity }
    }

    /// Whether there is nothing in the buffer.
    pub fn is_empty(&self) -> (r: bool)
        ensures
            r == (self@.len() == 0),
    {
        self.bytes.len() == 0
    }

    /// The number of bytes that still fit.
    pub fn remaining(&self) -> (n: usize)
        requires
            self.wf(),
        ensures
            n == self.capacity() - self@.len(),
    {
        self.capacity - self.bytes.len()
    }

    /// Appends bytes that fit.
    pub fn read_from(&mut self, source: &[u8])
        requires
            old(self).wf(),
            old(self)@.len() + source@.len() <= old(self).capacity(),
        ensures
            final(self).wf(),
            final(self)@ == old(self)@ + source@,
            final(self).capacity() == old(self).capacity(),
    {
        let mut i: usize = 0;
        assert(self@ =~= old(self)@ + source@.take(0));
        while i < source.len()
            invariant
                i <= source@.len(),
                self@ == old(self)@ + source@.take(i as int),
                self.capacity() == old(self).capacity(),
            decreases source@.len() - i,
        {
            self.bytes.push_back(source[i]);
            assert(self@ =~= old(self)@ + source@.take(i + 1));
            i = i + 1;
        }
        assert(source@.take(i as int) =~= source@);
    }

    /// Takes everything out, in order.
    pub fn drain(&mut self) -> (bytes: Vec<u8>)
        requires
            old(self).wf(),
        ensures
            final(self).wf(),
            bytes@ == old(self)@,
            final(self)@ == Seq::<u8>::empty(),
            final(self).capacity() == old(self).capacity(),
    {
        let mut bytes: Vec<u8> = Vec::new();
        assert(old(self)@ =~= bytes@ + self@);
        loop
            invariant
                old(self)@ == bytes@ + self@,
                self.wf(),
                self.capacity() == old(self).capacity(),
            decreases self@.len(),
        {
            let ghost left = self@;
            match self.bytes.pop_front() {
                Some(b) => {
                    bytes.push(b);
                    assert(old(self)@ =~= bytes@ + self@);
                },
                None => {
                    assert(self@ =~= Seq::<u8>::empty());
                    assert(bytes@ =~= old(self)@);
                    return bytes;
                },
            }
        }
    }
}

/// Bytes come out in the order in which they went in, none is lost, and the room
/// that is left is told right, on every call.
pub proof fn law_calls_keep_the_bytes(
    buffer: &mut StreamBuffer,
    source: &[u8],
    bytes: Vec<u8>,
    fixed: StreamBuffer,
    n: usize,
    empty: bool,
)
    ensures
        call_ensures(StreamBuffer::read_from, (buffer, source), ()) ==> final(buffer)@
            == old(buffer)@ + source@ && final(buffer).capacity() == old(buffer).capacity(),
        call_ensures(StreamBuffer::drain, (buffer,), bytes) ==> bytes@ == old(buffer)@
            && final(buffer)@.len() == 0 && final(buffer).capacity() == old(buffer).capacity(),
        call_ensures(StreamBuffer::remaining, (&fixed,), n) ==> n + fixed@.len()
            == fixed.capacity(),
        call_ensures(StreamBuffer::is_empty, (&fixed,), empty) ==> (empty <==> fixed@.len() == 0),
        call_ensures(StreamBuffer::new, (n,), fixed) ==> fixed@.len() == 0 && fixed.capacity() == n,
{
}

} // verus!
