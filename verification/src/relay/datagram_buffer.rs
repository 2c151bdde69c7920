//! A bounded queue of datagrams.

use vstd::prelude::*;

use crate::io_error::{ErrorKind, IoError};
use std::collections::VecDeque;

verus! {

/// Datagrams on their way to the network, first in first out, each with its
/// boundaries.
pub struct DatagramBuffer {
    datagrams: VecDeque<Vec<u8>>,
    size: usize,
    capacity: usize,
}

/// The number of bytes in all the datagrams.
pub open spec fn total_length(datagrams: Seq<Seq<u8>>) -> nat
    decreases datagrams.len(),
{
    if datagrams.len() == 0 {
        0
    } else {
        total_length(datagrams.drop_last()) + datagrams.last().len()
    }
}

/// The bytes of the first datagram count too.
proof fn total_length_first(datagrams: Seq<Seq<u8>>)
    requires
        datagrams.len() > 0,
    ensures
        total_length(datagrams) == datagrams[0].len() + total_length(datagrams.drop_first()),
    decreases datagrams.len(),
{
    if datagrams.len() == 1 {
        assert(datagrams.drop_last() =~= Seq::<Seq<u8>>::empty());
        assert(datagrams.drop_first() =~= Seq::<Seq<u8>>::empty());
    } else {
        total_length_first(datagrams.drop_last());
        assert(datagrams.drop_last().drop_first() =~= datagrams.drop_first().drop_last());
    }
}

impl View for DatagramBuffer {
    type V = Seq<Seq<u8>>;

    closed spec fn view(&self) -> Seq<Seq<u8>> {
        Seq::new(self.datagrams@.len(), |i: int| self.datagrams@[i]@)
    }
}

impl DatagramBuffer {
    /// How many bytes the buffer can hold.
    pub closed spec fn capacity(&self) -> nat {
        self.capacity as nat
    }

    /// The buffer knows how many bytes it holds, no more than it can.
    pub closed spec fn wf(&self) -> bool {
        self.size == total_length(self@) && self.size <= self.capacity
    }

    /// Whether a datagram of this length still fits.
    pub open spec fn fits(&self, length: nat) -> bool {
        total_length(self@) + length <= self.capacity()
    }

    /// An empty buffer.
    pub fn new(capacity: usize) -> (buffer: DatagramBuffer)
        ensures
            buffer.wf(),
            buffer@ == Seq::<Seq<u8>>::empty(),
            buffer.capacity() == capacity,
    {
        let buffer = DatagramBuffer { datagrams: VecDeque::new(), size: 0, capacity };
        assert(buffer@ =~= Seq::<Seq<u8>>::empty());
        buffer
    }

    /// Whether there is nothing to send.
    pub fn is_empty(&self) -> (r: bool)
        ensures
            r == (self@.len() == 0),
    {
        self.datagrams.len() == 0
    }

    /// Appends a datagram, or refuses it where it does not fit.
    pub fn read_from(&mut self, datagram: &[u8]) -> (r: Result<(), IoError>)
        requires
            old(self).wf(),
        ensures
            final(self).wf(),
            final(self).capacity() == old(self).capacity(),
            match r {
                Ok(_) => {
                    &&& old(self).fits(datagram@.len())
                    &&& final(self)@ == old(self)@.push(datagram@)
                },
                Err(e) => {
                    &&& !old(self).fits(datagram@.len())
                    &&& final(self)@ == old(self)@
                    &&& e.says(ErrorKind::WouldBlock, "Datagram buffer is full"@)
                },
            },
    {
        if datagram.len() > self.capacity - self.size {
            return Err(IoError::new(ErrorKind::WouldBlock, "Datagram buffer is full"));
        }
        self.datagrams.push_back(vstd::slice::slice_to_vec(datagram));
        self.size = self.size + datagram.len();
        assert(self@ =~= old(self)@.push(datagram@));
        assert(self@.drop_last() =~= old(self)@);
        Ok(())
    }

    /// Takes the oldest datagram, to be sent.
    pub fn take(&mut self) -> (r: Option<Vec<u8>>)
        requires
            old(self).wf(),
        ensures
            final(self).wf(),
            final(self).capacity() == old(self).capacity(),
            match r {
                Some(datagram) => {
                    &&& old(self)@.len() > 0
                    &&& datagram@ == old(self)@[0]
                    &&& final(self)@ == old(self)@.drop_first()
                },
                None => old(self)@.len() == 0 && final(self)@ == old(self)@,
            },
    {
        match self.datagrams.pop_front() {
            Some(datagram) => {
                assert(self@ =~= old(self)@.drop_first());
                assert(datagram@ == old(self)@[0]);
                proof {
                    total_length_first(old(self)@);
                }
                self.size = self.size - datagram.len();
                assert(self@ =~= old(self)@.drop_first());
                Some(datagram)
            },
            None => {
                assert(self@ =~= old(self)@);
                None
            },
        }
    }
}

/// A datagram goes in whole behind the others exactly where there is room for it,
/// and the oldest comes out first, whole, on every call.
pub proof fn law_calls_keep_the_datagrams(
    buffer: &mut DatagramBuffer,
    datagram: &[u8],
    r: Result<(), IoError>,
    taken: Option<Vec<u8>>,
    fixed: DatagramBuffer,
    capacity: usize,
    empty: bool,
)
    ensures
        call_ensures(DatagramBuffer::read_from, (buffer, datagram), r) ==> {
            &&& r is Ok <==> total_length(old(buffer)@) + datagram@.len()
                <= old(buffer).capacity()
            &&& r is Ok ==> final(buffer)@ == old(buffer)@.push(datagram@)
            &&& r is Err ==> final(buffer)@ == old(buffer)@
            &&& final(buffer).capacity() == old(buffer).capacity()
        },
        call_ensures(DatagramBuffer::take, (buffer,), taken) ==> {
            &&& taken is Some <==> old(buffer)@.len() > 0
            &&& taken is Some ==> seq![taken->0@] + final(buffer)@ == old(buffer)@
            &&& taken is None ==> final(buffer)@ == old(buffer)@
            &&& final(buffer).capacity() == old(buffer).capacity()
        },
        call_ensures(DatagramBuffer::new, (capacity,), fixed) ==> fixed@.len() == 0
            && fixed.capacity() == capacity,
        call_ensures(DatagramBuffer::is_empty, (&fixed,), empty) ==> (empty <==> fixed@.len() == 0),
{
    if call_ensures(DatagramBuffer::take, (buffer,), taken) && taken is Some {
        assert(seq![taken->0@] + final(buffer)@ =~= old(buffer)@);
    }
}

} // verus!
