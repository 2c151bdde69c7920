//! The way back to the device.

use vstd::prelude::*;

use crate::io_error::{ErrorKind, IoError};
use crate::relay::ip_packet::IpPacket;
use crate::relay::stream_buffer::StreamBuffer;

verus! {

/// The outgoing buffer of a client, which its connections share.
pub struct SharedBuffer {
    /// Whether someone is at work on the buffer.
    pub busy: bool,
    pub buffer: StreamBuffer,
}

/// What a shared buffer holds.
pub struct Outgoing {
    pub busy: bool,
    pub bytes: Seq<u8>,
    pub capacity: nat,
}

impl View for SharedBuffer {
    type V = Outgoing;

    open spec fn view(&self) -> Outgoing {
        Outgoing { busy: self.busy, bytes: self.buffer@, capacity: self.buffer.capacity() }
    }
}

impl SharedBuffer {
    /// The buffer holds no more than it can.
    pub open spec fn wf(&self) -> bool {
        self.buffer.wf()
    }

    /// An empty buffer that nobody is at work on.
    pub fn new(capacity: usize) -> (buffer: SharedBuffer)
        ensures
            buffer.wf(),
            buffer@ == (Outgoing { busy: false, bytes: Seq::empty(), capacity: capacity as nat }),
    {
        SharedBuffer { busy: false, buffer: StreamBuffer::new(capacity) }
    }
}

impl Outgoing {
    /// Whether a packet with these bytes can be written now.
    pub open spec fn accepts(self, raw: Seq<u8>) -> bool {
        !self.busy && self.bytes.len() + raw.len() <= self.capacity
    }

    /// With the bytes of a packet added at the end.
    pub open spec fn with(self, raw: Seq<u8>) -> Outgoing {
        Outgoing { busy: self.busy, bytes: self.bytes + raw, capacity: self.capacity }
    }

    /// What can be taken out now.
    pub open spec fn given(self) -> Seq<u8> {
        if self.busy {
            Seq::empty()
        } else {
            self.bytes
        }
    }

    /// With everything taken out that can be.
    pub open spec fn drained(self) -> Outgoing {
        if self.busy {
            self
        } else {
            Outgoing { busy: self.busy, bytes: Seq::empty(), capacity: self.capacity }
        }
    }

    /// With a packet written where it can be, and unchanged elsewhere.
    pub open spec fn offered(self, raw: Seq<u8>) -> Outgoing {
        if self.accepts(raw) {
            self.with(raw)
        } else {
            self
        }
    }
}

/// Channel for connections to send back data immediately to the client.
pub struct ClientChannel {
    buffer: SharedBuffer,
}

impl View for ClientChannel {
    type V = Outgoing;

    closed spec fn view(&self) -> Outgoing {
        self.buffer@
    }
}

impl ClientChannel {
    /// The buffer behind the channel holds no more than it can.
    pub open spec fn wf(&self) -> bool {
        self@.bytes.len() <= self@.capacity
    }

    /// A channel into the given buffer.
    pub fn new(buffer: SharedBuffer) -> (channel: ClientChannel)
        requires
            buffer.wf(),
        ensures
            channel.wf(),
            channel@ == buffer@,
    {
        ClientChannel { buffer }
    }

    /// Writes an IP packet into the outgoing buffer to the device.
    ///
    /// Fails with `WouldBlock` if the buffer is in use or too full.
    pub fn send_to_client(&mut self, ip_packet: &IpPacket) -> (r: Result<(), IoError>)
        requires
            old(self).wf(),
        ensures
            final(self).wf(),
            final(self)@ == old(self)@.offered(ip_packet.raw@),
            match r {
                Ok(_) => old(self)@.accepts(ip_packet.raw@),
                Err(e) => {
                    &&& !old(self)@.accepts(ip_packet.raw@)
                    &&& e.says(
                        ErrorKind::WouldBlock,
                        if old(self)@.busy {
                            "client buffer busy"@
                        } else {
                            "Client buffer full"@
                        },
                    )
                },
            },
    {
        if self.buffer.busy {
            return Err(IoError::new(ErrorKind::WouldBlock, "client buffer busy"));
        }
        if ip_packet.length() <= self.buffer.buffer.remaining() {
            self.buffer.buffer.read_from(ip_packet.raw.as_slice());
            Ok(())
        } else {
            Err(IoError::new(ErrorKind::WouldBlock, "Client buffer full"))
        }
    }

    /// Takes out everything that waits for the device; nothing while the buffer
    /// is in use.
    pub fn drain(&mut self) -> (bytes: Vec<u8>)
        requires
            old(self).wf(),
        ensures
            final(self).wf(),
            bytes@ == old(self)@.given(),
            final(self)@ == old(self)@.drained(),
    {
        if self.buffer.busy {
            return Vec::new();
        }
        let bytes = self.buffer.buffer.drain();
        assert(self@ == old(self)@.drained());
        bytes
    }

    /// Whether data waits for the device, and can be taken now.
    pub fn has_outgoing(&self) -> (r: bool)
        ensures
            r == (self@.given().len() > 0),
    {
        if self.buffer.busy {
            false
        } else {
            !self.buffer.buffer.is_empty()
        }
    }

    /// Marks the buffer as in use, or as free again.
    pub fn set_busy(&mut self, busy: bool)
        requires
            old(self).wf(),
        ensures
            final(self).wf(),
            final(self)@ == (Outgoing { busy, ..old(self)@ }),
    {
        self.buffer.busy = busy;
    }
}

/// What the buffer holds after it was offered these packets one after the other.
pub open spec fn offered_all(outgoing: Outgoing, packets: Seq<Seq<u8>>) -> Outgoing
    decreases packets.len(),
{
    if packets.len() == 0 {
        outgoing
    } else {
        offered_all(outgoing, packets.drop_last()).offered(packets.last())
    }
}

/// The bytes of the packets that the buffer accepts out of these, in order.
pub open spec fn accepted_bytes(outgoing: Outgoing, packets: Seq<Seq<u8>>) -> Seq<u8>
    decreases packets.len(),
{
    if packets.len() == 0 {
        Seq::empty()
    } else {
        let earlier = accepted_bytes(outgoing, packets.drop_last());
        if offered_all(outgoing, packets.drop_last()).accepts(packets.last()) {
            earlier + packets.last()
        } else {
            earlier
        }
    }
}

/// Packets go to the device whole or not at all, in the order in which they were
/// written, behind what waited before; and the buffer never holds more than its
/// capacity.
pub proof fn law_packets_stay_whole(outgoing: Outgoing, packets: Seq<Seq<u8>>)
    requires
        outgoing.bytes.len() <= outgoing.capacity,
    ensures
        offered_all(outgoing, packets).bytes == outgoing.bytes + accepted_bytes(outgoing, packets),
        offered_all(outgoing, packets).bytes.len() <= outgoing.capacity,
        offered_all(outgoing, packets).capacity == outgoing.capacity,
        offered_all(outgoing, packets).busy == outgoing.busy,
    decreases packets.len(),
{
    if packets.len() == 0 {
        assert(outgoing.bytes + Seq::<u8>::empty() =~= outgoing.bytes);
    } else {
        law_packets_stay_whole(outgoing, packets.drop_last());
        assert(offered_all(outgoing, packets).bytes =~= outgoing.bytes + accepted_bytes(
            outgoing,
            packets,
        ));
    }
}

/// A packet is written behind what waits exactly where the buffer is free and the
/// whole packet still fits, and else changes nothing.
pub proof fn law_packet_is_written_where_it_fits(outgoing: Outgoing, raw: Seq<u8>)
    ensures
        !outgoing.busy && outgoing.bytes.len() + raw.len() <= outgoing.capacity
            ==> outgoing.offered(raw).bytes == outgoing.bytes + raw,
        outgoing.busy || outgoing.bytes.len() + raw.len() > outgoing.capacity ==> outgoing.offered(
            raw,
        ) == outgoing,
        outgoing.accepts(raw) <==> !outgoing.busy && outgoing.bytes.len() + raw.len()
            <= outgoing.capacity,
        outgoing.offered(raw).busy == outgoing.busy,
        outgoing.offered(raw).capacity == outgoing.capacity,
{
}

/// The device gets what was written: taking out gives all the bytes that wait, in
/// order, and leaves none; while the buffer is in use nothing is taken and nothing
/// is lost.
pub proof fn law_taking_out_gives_what_was_written(outgoing: Outgoing, raw: Seq<u8>)
    ensures
        outgoing.given() + outgoing.drained().bytes == outgoing.bytes,
        !outgoing.busy ==> outgoing.given() == outgoing.bytes,
        outgoing.busy ==> outgoing.given().len() == 0,
        outgoing.drained().capacity == outgoing.capacity,
        outgoing.drained().busy == outgoing.busy,
        !outgoing.busy && outgoing.bytes.len() + raw.len() <= outgoing.capacity
            ==> outgoing.offered(raw).given() == outgoing.given() + raw,
        !outgoing.busy && raw.len() <= outgoing.capacity ==> outgoing.drained().offered(raw).bytes
            == raw,
{
    assert(outgoing.given() + outgoing.drained().bytes =~= outgoing.bytes);
    assert(Seq::<u8>::empty() + raw =~= raw);
}

/// A packet is written or refused, and what waits is taken out, as it should be on
/// every call; a refusal tells that the buffer was in use, or that it was too
/// full.
pub proof fn law_calls_go_through_the_channel(
    channel: &mut ClientChannel,
    ip_packet: IpPacket,
    r: Result<(), IoError>,
    bytes: Vec<u8>,
    busy: bool,
)
    ensures
        call_ensures(ClientChannel::send_to_client, (channel, &ip_packet), r) ==> {
            &&& final(channel)@ == old(channel)@.offered(ip_packet.raw@)
            &&& r is Ok <==> !old(channel)@.busy && old(channel)@.bytes.len()
                + ip_packet.raw@.len() <= old(channel)@.capacity
            &&& r is Err ==> r->Err_0.kind == ErrorKind::WouldBlock
            &&& r is Err && old(channel)@.busy ==> r->Err_0.message@ == "client buffer busy"@
            &&& r is Err && !old(channel)@.busy ==> r->Err_0.message@ == "Client buffer full"@
        },
        call_ensures(ClientChannel::drain, (channel,), bytes) ==> {
            &&& bytes@ == old(channel)@.given()
            &&& final(channel)@ == old(channel)@.drained()
        },
        call_ensures(ClientChannel::set_busy, (channel, busy), ()) ==> {
            &&& final(channel)@.busy == busy
            &&& final(channel)@.bytes == old(channel)@.bytes
            &&& final(channel)@.capacity == old(channel)@.capacity
        },
{
}

/// A channel begins with the buffer it is given, which begins empty, and tells
/// whether anything can be taken out.
pub proof fn law_calls_make_a_channel(
    capacity: usize,
    buffer: SharedBuffer,
    channel: ClientChannel,
    r: bool,
)
    ensures
        call_ensures(SharedBuffer::new, (capacity,), buffer) ==> {
            &&& buffer@.bytes.len() == 0
            &&& buffer@.capacity == capacity
            &&& !buffer@.busy
        },
        call_ensures(ClientChannel::new, (buffer,), channel) ==> channel@ == buffer@,
        call_ensures(ClientChannel::has_outgoing, (&channel,), r) ==> (r <==> !channel@.busy
            && channel@.bytes.len() > 0),
{
}

} // verus!
