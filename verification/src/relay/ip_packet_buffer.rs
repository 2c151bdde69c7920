//! Cutting the stream of a device into packets.
//!
//! A device sends its packets one right after the other. Where one ends is told
//! by its header: the total length of an IPv4 packet, or the payload length of
//! an IPv6 packet.

use vstd::prelude::*;

verus! {

/// The length of the shortest IPv4 packet.
pub const MIN_IPV4_LENGTH: usize = 20;

/// The length of an IPv6 header.
pub const IPV6_HEADER_LENGTH: usize = 40;

/// The bytes of a packet that is not complete yet.
pub struct IpPacketBuffer {
    bytes: Vec<u8>,
}

/// Two bytes as a number, the most significant first.
pub open spec fn big_endian_u16(bytes: Seq<u8>, i: int) -> nat {
    (bytes[i] * 256 + bytes[i + 1]) as nat
}

/// The version of the packet at the start of some bytes.
pub open spec fn version(bytes: Seq<u8>) -> u8 {
    bytes[0] / 16
}

/// The length of the packet at the start of some bytes, where enough of its
/// header is there to tell.
pub open spec fn told_length(bytes: Seq<u8>) -> Option<nat> {
    if bytes.len() == 0 {
        None
    } else if version(bytes) == 4 {
        if bytes.len() >= 4 {
            Some(big_endian_u16(bytes, 2))
        } else {
            None
        }
    } else if version(bytes) == 6 {
        if bytes.len() >= 6 {
            Some(IPV6_HEADER_LENGTH as nat + big_endian_u16(bytes, 4))
        } else {
            None
        }
    } else {
        None
    }
}

/// Whether nothing in the header at the start of some bytes rules out a packet:
/// its version is known, and its length has room for the header.
pub open spec fn readable(bytes: Seq<u8>) -> bool {
    bytes.len() > 0 ==> {
        &&& version(bytes) == 4 || version(bytes) == 6
        &&& version(bytes) == 4 && told_length(bytes) is Some ==> told_length(bytes)->0
            >= MIN_IPV4_LENGTH
    }
}

/// The length of the packet at the start of some bytes, where all of it is
/// there. What cannot be read is taken for one packet, for the router to drop.
pub open spec fn complete_length(bytes: Seq<u8>) -> Option<nat> {
    if !readable(bytes) {
        Some(bytes.len())
    } else {
        match told_length(bytes) {
            Some(n) => if n <= bytes.len() {
                Some(n)
            } else {
                None
            },
            None => None,
        }
    }
}

/// The complete packets at the start of some bytes, in order.
pub open spec fn packets_in(bytes: Seq<u8>) -> Seq<Seq<u8>>
    decreases bytes.len(),
{
    match complete_length(bytes) {
        Some(n) => seq![bytes.take(n as int)] + packets_in(bytes.skip(n as int)),
        None => Seq::empty(),
    }
}

/// The bytes that follow the complete packets.
pub open spec fn rest_of(bytes: Seq<u8>) -> Seq<u8>
    decreases bytes.len(),
{
    match complete_length(bytes) {
        Some(n) => rest_of(bytes.skip(n as int)),
        None => bytes,
    }
}

/// Whether some bytes are packets one right after the other, the last of which
/// may be incomplete.
pub open spec fn in_step(bytes: Seq<u8>) -> bool
    decreases bytes.len(),
{
    &&& readable(bytes)
    &&& match complete_length(bytes) {
        Some(n) => in_step(bytes.skip(n as int)),
        None => true,
    }
}

/// The bytes of the packets, one right after the other.
pub open spec fn joined_packets(packets: Seq<Seq<u8>>) -> Seq<u8>
    decreases packets.len(),
{
    if packets.len() == 0 {
        Seq::empty()
    } else {
        packets[0] + joined_packets(packets.drop_first())
    }
}

/// The raw packets as sequences.
pub open spec fn raw_packets(packets: Seq<Vec<u8>>) -> Seq<Seq<u8>> {
    Seq::new(packets.len(), |i: int| packets[i]@)
}

fn find_complete_length(bytes: &[u8]) -> (r: Option<usize>)
    ensures
        match r {
            Some(n) => complete_length(bytes@) == Some(n as nat) && 0 < n <= bytes@.len(),
            None => complete_length(bytes@) is None,
        },
{
    if bytes.len() == 0 {
        return None;
    }
    let version: u8 = bytes[0] / 16;
    let n: usize = if version == 4 {
        if bytes.len() < 4 {
            return None;
        }
        let length: usize = bytes[2] as usize * 256 + bytes[3] as usize;
        if length < MIN_IPV4_LENGTH {
            return Some(bytes.len());
        }
        length
    } else if version == 6 {
        if bytes.len() < 6 {
            return None;
        }
        IPV6_HEADER_LENGTH + (bytes[4] as usize * 256 + bytes[5] as usize)
    } else {
        return Some(bytes.len());
    };
    if n <= bytes.len() {
        Some(n)
    } else {
        None
    }
}

impl View for IpPacketBuffer {
    type V = Seq<u8>;

    closed spec fn view(&self) -> Seq<u8> {
        self.bytes@
    }
}

impl IpPacketBuffer {
    /// No complete packet waits in the buffer.
    pub open spec fn wf(&self) -> bool {
        complete_length(self@) is None
    }

    /// An empty buffer.
    pub fn new() -> (buffer: IpPacketBuffer)
        ensures
            buffer.wf(),
            buffer@ == Seq::<u8>::empty(),
    {
        IpPacketBuffer { bytes: Vec::new() }
    }

    /// Takes bytes of the stream, and hands out the packets that are complete
    /// now.
    pub fn read_from(&mut self, data: &[u8]) -> (packets: Vec<Vec<u8>>)
        requires
            old(self).wf(),
        ensures
            final(self).wf(),
            raw_packets(packets@) == packets_in(old(self)@ + data@),
            final(self)@ == rest_of(old(self)@ + data@),
    {
        let ghost all = self@ + data@;
        let mut i: usize = 0;
        assert(self@ =~= old(self)@ + data@.take(0));
        while i < data.len()
            invariant
                i <= data@.len(),
                self@ == old(self)@ + data@.take(i as int),
            decreases data@.len() - i,
        {
            self.bytes.push(data[i]);
            assert(self@ =~= old(self)@ + data@.take(i + 1));
            i = i + 1;
        }
        assert(self@ =~= all);
        let mut packets: Vec<Vec<u8>> = Vec::new();
        let mut start: usize = 0;
        assert(all.skip(0) =~= all);
        assert(raw_packets(packets@) + packets_in(all) =~= packets_in(all));
        loop
            invariant
                self@ == all,
                all == old(self)@ + data@,
                start <= all.len(),
                packets_in(all) == raw_packets(packets@) + packets_in(all.skip(start as int)),
                rest_of(all) == rest_of(all.skip(start as int)),
            decreases all.len() - start,
        {
            let rest = vstd::slice::slice_subrange(
                self.bytes.as_slice(),
                start,
                self.bytes.len(),
            );
            assert(rest@ =~= all.skip(start as int));
            match find_complete_length(rest) {
                Some(n) => {
                    let ghost before = raw_packets(packets@);
                    let packet = vstd::slice::slice_subrange(rest, 0, n);
                    assert(packet@ =~= rest@.take(n as int));
                    packets.push(vstd::slice::slice_to_vec(packet));
                    assert(raw_packets(packets@) =~= before + seq![packet@]);
                    assert(rest@.skip(n as int) =~= all.skip(start + n));
                    assert(before + (seq![packet@] + packets_in(all.skip(start + n)))
                        =~= raw_packets(packets@) + packets_in(all.skip(start + n)));
                    start = start + n;
                },
                None => {
                    let left = vstd::slice::slice_to_vec(rest);
                    assert(raw_packets(packets@) + Seq::<Seq<u8>>::empty() =~= raw_packets(
                        packets@,
                    ));
                    self.bytes = left;
                    return packets;
                },
            }
        }
    }
}

/// What more bytes follow does not change a packet that is complete.
proof fn complete_packet_stays(bytes: Seq<u8>, more: Seq<u8>)
    requires
        readable(bytes + more),
        complete_length(bytes) is Some,
    ensures
        complete_length(bytes + more) == complete_length(bytes),
        0 < complete_length(bytes)->0 <= bytes.len(),
{
    let all = bytes + more;
    if bytes.len() > 0 {
        assert(all[0] == bytes[0]);
        if bytes.len() >= 4 {
            assert(all[2] == bytes[2] && all[3] == bytes[3]);
        }
        if bytes.len() >= 6 {
            assert(all[4] == bytes[4] && all[5] == bytes[5]);
        }
    }
}

/// It makes no difference where the stream of a device is split: the same
/// packets come out, in the same order, and the same bytes are left over.
pub proof fn law_stream_in_parts(first: Seq<u8>, second: Seq<u8>)
    requires
        in_step(first + second),
    ensures
        packets_in(first + second) == packets_in(first) + packets_in(rest_of(first) + second),
        rest_of(first + second) == rest_of(rest_of(first) + second),
        packets_in(first + second).len() == packets_in(first).len() + packets_in(
            rest_of(first) + second,
        ).len(),
    decreases first.len(),
{
    let all = first + second;
    match complete_length(first) {
        Some(n) => {
            complete_packet_stays(first, second);
            let n = n as int;
            assert(all.take(n) =~= first.take(n));
            assert(all.skip(n) =~= first.skip(n) + second);
            law_stream_in_parts(first.skip(n), second);
            assert(packets_in(all) =~= packets_in(first) + packets_in(rest_of(first) + second));
        },
        None => {
            assert(packets_in(first) + packets_in(all) =~= packets_in(all));
        },
    }
}

/// No byte of the stream is lost or changed: the packets and what is left over
/// are the stream.
pub proof fn law_no_byte_is_lost(bytes: Seq<u8>)
    ensures
        joined_packets(packets_in(bytes)) + rest_of(bytes) == bytes,
        complete_length(rest_of(bytes)) is None,
        packets_in(rest_of(bytes)).len() == 0,
    decreases bytes.len(),
{
    match complete_length(bytes) {
        Some(n) => {
            let n = n as int;
            assert(bytes.len() > 0);
            law_no_byte_is_lost(bytes.skip(n));
            let packets = packets_in(bytes);
            assert(packets.drop_first() =~= packets_in(bytes.skip(n)));
            assert(joined_packets(packets) + rest_of(bytes) =~= bytes.take(n) + bytes.skip(n));
            assert(bytes.take(n) + bytes.skip(n) =~= bytes);
        },
        None => {
            assert(Seq::<u8>::empty() + bytes =~= bytes);
        },
    }
}

/// Whether some bytes are one IPv4 packet: a first byte with the version four in
/// its upper half, and a third and fourth byte that tell the number of all bytes,
/// which has room for a header of twenty.
pub open spec fn is_ipv4_packet(p: Seq<u8>) -> bool {
    &&& p.len() >= 20
    &&& 0x40 <= p[0] <= 0x4f
    &&& p.len() == p[2] * 256 + p[3]
}

/// Whether some bytes are one IPv6 packet: a first byte with the version six in
/// its upper half, and a fifth and sixth byte that tell the number of the bytes
/// after a header of forty.
pub open spec fn is_ipv6_packet(p: Seq<u8>) -> bool {
    &&& p.len() >= 40
    &&& 0x60 <= p[0] <= 0x6f
    &&& p.len() == 40 + p[4] * 256 + p[5]
}

/// An IPv4 packet ends where the two bytes of its total length say, whatever
/// follows it, and is handed out only when it is whole.
pub proof fn law_ipv4_packet_is_cut_at_its_total_length(bytes: Seq<u8>, n: nat)
    requires
        bytes.len() >= 4,
        0x40 <= bytes[0] <= 0x4f,
        bytes[2] * 256 + bytes[3] == n,
        n >= 20,
    ensures
        bytes.len() >= n ==> {
            &&& packets_in(bytes).len() > 0
            &&& packets_in(bytes)[0] == bytes.take(n as int)
            &&& packets_in(bytes).drop_first() == packets_in(bytes.skip(n as int))
            &&& rest_of(bytes) == rest_of(bytes.skip(n as int))
        },
        bytes.len() < n ==> packets_in(bytes).len() == 0 && rest_of(bytes) == bytes,
{
    if bytes.len() >= n {
        assert(complete_length(bytes) == Some(n));
        assert(packets_in(bytes).drop_first() =~= packets_in(bytes.skip(n as int)));
    }
}

/// An IPv6 packet ends as many bytes after its header as the two bytes of its
/// payload length say, whatever follows it, and is handed out only when it is
/// whole.
pub proof fn law_ipv6_packet_is_cut_at_its_payload_length(bytes: Seq<u8>, n: nat)
    requires
        bytes.len() >= 6,
        0x60 <= bytes[0] <= 0x6f,
        40 + bytes[4] * 256 + bytes[5] == n,
    ensures
        bytes.len() >= n ==> {
            &&& packets_in(bytes).len() > 0
            &&& packets_in(bytes)[0] == bytes.take(n as int)
            &&& packets_in(bytes).drop_first() == packets_in(bytes.skip(n as int))
            &&& rest_of(bytes) == rest_of(bytes.skip(n as int))
        },
        bytes.len() < n ==> packets_in(bytes).len() == 0 && rest_of(bytes) == bytes,
{
    if bytes.len() >= n {
        assert(complete_length(bytes) == Some(n));
        assert(packets_in(bytes).drop_first() =~= packets_in(bytes.skip(n as int)));
    }
}

/// Bytes that are too few to tell a length wait for more.
pub proof fn law_short_headers_wait(bytes: Seq<u8>)
    requires
        bytes.len() == 0 || (0x40 <= bytes[0] <= 0x4f && bytes.len() < 4) || (0x60 <= bytes[0]
            <= 0x6f && bytes.len() < 6),
    ensures
        packets_in(bytes).len() == 0,
        rest_of(bytes) == bytes,
{
}

/// Bytes of no known version, or of an IPv4 packet that would be shorter than its
/// header, are handed out together.
pub proof fn law_unreadable_bytes_are_handed_out(bytes: Seq<u8>)
    requires
        bytes.len() > 0,
        (!(0x40 <= bytes[0] <= 0x4f) && !(0x60 <= bytes[0] <= 0x6f)) || (0x40 <= bytes[0] <= 0x4f
            && bytes.len() >= 4 && bytes[2] * 256 + bytes[3] < 20),
    ensures
        packets_in(bytes) == seq![bytes],
        rest_of(bytes).len() == 0,
{
    assert(complete_length(bytes) == Some(bytes.len()));
    let rest = bytes.skip(bytes.len() as int);
    assert(packets_in(rest) =~= Seq::<Seq<u8>>::empty());
    assert(rest_of(rest) == rest);
    assert(bytes.take(bytes.len() as int) =~= bytes);
    assert(packets_in(bytes) =~= seq![bytes]);
}

/// Packets that a device sends one right after the other come out as they are,
/// all of them and in order, and the beginning of a further one is left over.
pub proof fn law_sent_packets_come_out(packets: Seq<Seq<u8>>, next: Seq<u8>, part: Seq<u8>)
    requires
        forall|i: int|
            0 <= i < packets.len() ==> is_ipv4_packet(#[trigger] packets[i]) || is_ipv6_packet(
                packets[i],
            ),
        is_ipv4_packet(next) || is_ipv6_packet(next),
        part.len() < next.len(),
        part == next.take(part.len() as int),
    ensures
        packets_in(packets.fold_right(|p: Seq<u8>, later: Seq<u8>| p + later, part)) == packets,
        rest_of(packets.fold_right(|p: Seq<u8>, later: Seq<u8>| p + later, part)) == part,
    decreases packets.len(),
{
    let join = |p: Seq<u8>, later: Seq<u8>| p + later;
    let stream = packets.fold_right(join, part);
    if packets.len() == 0 {
        assert(stream == part);
        if part.len() > 0 {
            assert(part[0] == next[0]);
            if part.len() >= 4 {
                assert(part[2] == next[2] && part[3] == next[3]);
            }
            if part.len() >= 6 {
                assert(part[4] == next[4] && part[5] == next[5]);
            }
        }
        assert(packets_in(part) =~= packets);
    } else {
        let first = packets[0];
        let others = packets.drop_first();
        packets.lemma_fold_right_alt(join, part);
        others.lemma_fold_right_alt(join, part);
        let later = others.fold_right(join, part);
        assert(stream == first + later);
        assert forall|i: int| 0 <= i < others.len() implies is_ipv4_packet(#[trigger] others[i])
            || is_ipv6_packet(others[i]) by {
            assert(others[i] == packets[i + 1]);
        }
        law_sent_packets_come_out(others, next, part);
        let n = first.len() as int;
        assert(stream.take(n) =~= first);
        assert(stream.skip(n) =~= later);
        assert(stream[0] == first[0] && stream[2] == first[2] && stream[3] == first[3]);
        assert(stream[4] == first[4] && stream[5] == first[5]);
        if is_ipv4_packet(first) {
            law_ipv4_packet_is_cut_at_its_total_length(stream, n as nat);
        } else {
            law_ipv6_packet_is_cut_at_its_payload_length(stream, n as nat);
        }
        assert(packets_in(stream) =~= seq![first] + packets_in(later));
        assert(seq![first] + others =~= packets);
    }
}

/// A call takes up the bytes where the last one left off: it hands out the packets
/// that are complete then, and keeps what is left over.
pub proof fn law_calls_cut_the_stream(
    buffer: &mut IpPacketBuffer,
    data: &[u8],
    packets: Vec<Vec<u8>>,
    empty: IpPacketBuffer,
)
    ensures
        call_ensures(IpPacketBuffer::read_from, (buffer, data), packets) ==> {
            &&& raw_packets(packets@) == packets_in(old(buffer)@ + data@)
            &&& final(buffer)@ == rest_of(old(buffer)@ + data@)
            &&& packets@.len() == packets_in(old(buffer)@ + data@).len()
            &&& forall|i: int|
                0 <= i < packets@.len() ==> (#[trigger] packets@[i])@ == packets_in(
                    old(buffer)@ + data@,
                )[i]
        },
        call_ensures(IpPacketBuffer::new, (), empty) ==> empty@.len() == 0,
{
    if call_ensures(IpPacketBuffer::read_from, (buffer, data), packets) {
        assert forall|i: int| 0 <= i < packets@.len() implies (#[trigger] packets@[i])@
            == packets_in(old(buffer)@ + data@)[i] by {
            assert(raw_packets(packets@)[i] == packets@[i]@);
        }
    }
}

} // verus!
