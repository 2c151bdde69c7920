//! Addresses, and how they are printed.

use vstd::prelude::*;

use crate::text::{push_decimal, push_hexadecimal};
#[allow(unused_imports)]
use crate::text::{decimal, hexadecimal};

verus! {

/// An IP address, as the number that its bytes spell in network order.
#[derive(Clone, Copy, Debug, PartialEq, Eq, Structural)]
pub enum IpAddr {
    V4(u32),
    V6(u128),
}

/// An address and a port.
#[derive(Clone, Copy, Debug, PartialEq, Eq, Structural)]
pub struct SocketAddr {
    pub ip: IpAddr,
    pub port: u16,
}

/// An IPv4 address in dotted decimal.
pub open spec fn ipv4_text(bits: u32) -> Seq<char> {
    decimal(((bits >> 24) & 0xff) as nat) + seq!['.'] + decimal(((bits >> 16) & 0xff) as nat)
        + seq!['.'] + decimal(((bits >> 8) & 0xff) as nat) + seq!['.'] + decimal(
        (bits & 0xff) as nat,
    )
}

/// Appends an IPv4 address in dotted decimal.
fn push_ipv4(out: &mut String, bits: u32)
    ensures
        final(out)@ == old(out)@ + ipv4_text(bits),
{
    push_decimal(out, ((bits >> 24) & 0xff) as u64);
    out.push('.');
    push_decimal(out, ((bits >> 16) & 0xff) as u64);
    out.push('.');
    push_decimal(out, ((bits >> 8) & 0xff) as u64);
    out.push('.');
    push_decimal(out, (bits & 0xff) as u64);
    assert(out@ =~= old(out)@ + ipv4_text(bits));
}

/// One of the eight 16-bit groups of an IPv6 address, the most significant
/// first.
pub open spec fn ipv6_group(bits: u128, i: int) -> u16 {
    ((bits >> ((112 - 16 * i) as u128)) & 0xffff) as u16
}

/// The eight groups of an IPv6 address.
pub open spec fn ipv6_groups(bits: u128) -> Seq<u16> {
    Seq::new(8, |i: int| ipv6_group(bits, i))
}

/// The groups in hexadecimal, with a colon between neighbours.
pub open spec fn groups_text(groups: Seq<u16>) -> Seq<char>
    decreases groups.len(),
{
    if groups.len() == 0 {
        Seq::empty()
    } else if groups.len() == 1 {
        hexadecimal(groups[0] as nat)
    } else {
        groups_text(groups.drop_last()) + seq![':'] + hexadecimal(groups.last() as nat)
    }
}

/// Appends `groups[from..to]` in hexadecimal, with a colon between neighbours.
fn push_groups(out: &mut String, groups: &Vec<u16>, from: usize, to: usize)
    requires
        from <= to <= groups@.len(),
    ensures
        final(out)@ == old(out)@ + groups_text(groups@.subrange(from as int, to as int)),
{
    let mut i: usize = from;
    assert(out@ =~= old(out)@ + groups_text(groups@.subrange(from as int, from as int)));
    while i < to
        invariant
            from <= i <= to <= groups@.len(),
            out@ == old(out)@ + groups_text(groups@.subrange(from as int, i as int)),
        decreases to - i,
    {
        let ghost next = groups@.subrange(from as int, i + 1);
        assert(next.drop_last() =~= groups@.subrange(from as int, i as int));
        if i > from {
            out.push(':');
        }
        push_hexadecimal(out, groups[i] as u64);
        assert(out@ =~= old(out)@ + groups_text(next));
        i = i + 1;
    }
}

/// How many of the groups just before `end` are zero.
pub open spec fn zeros_before(groups: Seq<u16>, end: int) -> int
    decreases end,
{
    if end <= 0 || groups[end - 1] != 0 {
        0
    } else {
        zeros_before(groups, end - 1) + 1
    }
}

/// Where the longest run of zeros in `groups[..end]` starts, and its length;
/// the first one, where several are as long.
pub open spec fn longest_zeros(groups: Seq<u16>, end: int) -> (int, int)
    decreases end,
{
    if end <= 0 {
        (0, 0)
    } else {
        let best = longest_zeros(groups, end - 1);
        let run = zeros_before(groups, end);
        if run > best.1 {
            (end - run, run)
        } else {
            best
        }
    }
}

/// An IPv6 address: groups in hexadecimal, the longest run of two or more zero
/// groups written as `::`, and an IPv4-mapped address with its last half in
/// dotted decimal.
pub open spec fn ipv6_text(bits: u128) -> Seq<char> {
    let groups = ipv6_groups(bits);
    if bits >> 32 == 0xffff {
        "::ffff:"@ + ipv4_text((bits & 0xffff_ffff) as u32)
    } else {
        let (start, length) = longest_zeros(groups, 8);
        if length > 1 {
            groups_text(groups.take(start)) + "::"@ + groups_text(groups.skip(start + length))
        } else {
            groups_text(groups)
        }
    }
}

/// Appends an IPv6 address.
fn push_ipv6(out: &mut String, bits: u128)
    ensures
        final(out)@ == old(out)@ + ipv6_text(bits),
{
    if bits >> 32 == 0xffff {
        out.append("::ffff:");
        push_ipv4(out, (bits & 0xffff_ffff) as u32);
        assert(out@ =~= old(out)@ + ipv6_text(bits));
        return ;
    }
    let mut groups: Vec<u16> = Vec::new();
    let ghost all = ipv6_groups(bits);
    let mut run: usize = 0;
    let mut start: usize = 0;
    let mut length: usize = 0;
    let mut i: usize = 0;
    assert(groups@ =~= all.take(0));
    while i < 8
        invariant
            i <= 8,
            all == ipv6_groups(bits),
            groups@ == all.take(i as int),
            run <= i,
            start + length <= i,
            run == zeros_before(all, i as int),
            (start as int, length as int) == longest_zeros(all, i as int),
        decreases 8 - i,
    {
        let shift: u128 = 112 - 16 * (i as u128);
        let group: u16 = ((bits >> shift) & 0xffff) as u16;
        groups.push(group);
        assert(all[i as int] == group);
        assert(groups@ =~= all.take(i + 1));
        if group == 0 {
            run = run + 1;
            if run > length {
                start = i + 1 - run;
                length = run;
            }
        } else {
            run = 0;
        }
        i = i + 1;
    }
    assert(groups@ =~= all);
    if length > 1 {
        push_groups(out, &groups, 0, start);
        out.append("::");
        push_groups(out, &groups, start + length, 8);
        assert(all.subrange(0, start as int) =~= all.take(start as int));
        assert(all.subrange(start + length, 8) =~= all.skip(start + length));
        assert(out@ =~= old(out)@ + ipv6_text(bits));
    } else {
        push_groups(out, &groups, 0, 8);
        assert(all.subrange(0, 8) =~= all);
    }
}

/// An address and a port, an IPv6 address in square brackets.
pub open spec fn socket_addr_text(addr: SocketAddr) -> Seq<char> {
    match addr.ip {
        IpAddr::V4(bits) => ipv4_text(bits) + seq![':'] + decimal(addr.port as nat),
        IpAddr::V6(bits) => seq!['['] + ipv6_text(bits) + seq![']', ':'] + decimal(
            addr.port as nat,
        ),
    }
}

/// Appends an address and a port.
pub fn push_socket_addr(out: &mut String, addr: SocketAddr)
    ensures
        final(out)@ == old(out)@ + socket_addr_text(addr),
{
    match addr.ip {
        IpAddr::V4(bits) => {
            push_ipv4(out, bits);
        },
        IpAddr::V6(bits) => {
            out.push('[');
            push_ipv6(out, bits);
            out.push(']');
        },
    }
    out.push(':');
    push_decimal(out, addr.port as u64);
    assert(out@ =~= old(out)@ + socket_addr_text(addr));
}

/// An IPv4 address is printed as its four bytes in decimal, the most significant
/// first, with dots between them.
pub proof fn law_ipv4_address_in_print(a: u8, b: u8, c: u8, d: u8)
    ensures
        ipv4_text((a * 0x100_0000 + b * 0x1_0000 + c * 0x100 + d) as u32) == decimal(a as nat)
            + seq!['.'] + decimal(b as nat) + seq!['.'] + decimal(c as nat) + seq!['.'] + decimal(
            d as nat,
        ),
{
    let bits = (a * 0x100_0000 + b * 0x1_0000 + c * 0x100 + d) as u32;
    let (wa, wb, wc, wd) = (a as u32, b as u32, c as u32, d as u32);
    assert((bits >> 24) & 0xff == wa && (bits >> 16) & 0xff == wb && (bits >> 8) & 0xff == wc
        && bits & 0xff == wd) by (bit_vector)
        requires
            bits == wa * 0x100_0000 + wb * 0x1_0000 + wc * 0x100 + wd,
            wa <= 0xff,
            wb <= 0xff,
            wc <= 0xff,
            wd <= 0xff,
    ;
}

/// The groups of an IPv6 address are its digits in base 65536, the most
/// significant first.
pub proof fn law_ipv6_groups_are_digits(bits: u128)
    ensures
        ipv6_groups(bits).len() == 8,
        bits == ipv6_groups(bits)[0] * 0x1_0000_0000_0000_0000_0000_0000_0000
            + ipv6_groups(bits)[1] * 0x1_0000_0000_0000_0000_0000_0000 + ipv6_groups(bits)[2]
            * 0x1_0000_0000_0000_0000_0000 + ipv6_groups(bits)[3] * 0x1_0000_0000_0000_0000
            + ipv6_groups(bits)[4] * 0x1_0000_0000_0000 + ipv6_groups(bits)[5] * 0x1_0000_0000
            + ipv6_groups(bits)[6] * 0x1_0000 + ipv6_groups(bits)[7],
{
    assert(bits == (((bits >> 112u128) & 0xffff) as u16)
        * 0x1_0000_0000_0000_0000_0000_0000_0000 + (((bits >> 96u128) & 0xffff) as u16)
        * 0x1_0000_0000_0000_0000_0000_0000 + (((bits >> 80u128) & 0xffff) as u16)
        * 0x1_0000_0000_0000_0000_0000 + (((bits >> 64u128) & 0xffff) as u16)
        * 0x1_0000_0000_0000_0000 + (((bits >> 48u128) & 0xffff) as u16) * 0x1_0000_0000_0000 + (((
    bits >> 32u128) & 0xffff) as u16) * 0x1_0000_0000 + (((bits >> 16u128) & 0xffff) as u16)
        * 0x1_0000 + (((bits >> 0u128) & 0xffff) as u16)) by (bit_vector);
}

/// Groups are printed in hexadecimal, with one colon between neighbours.
pub proof fn law_groups_in_print(groups: Seq<u16>, group: u16)
    ensures
        groups_text(seq![group]) == hexadecimal(group as nat),
        groups.len() > 0 ==> groups_text(groups.push(group)) == groups_text(groups) + seq![':']
            + hexadecimal(group as nat),
        groups_text(Seq::empty()) == Seq::<char>::empty(),
{
    assert(groups.push(group).drop_last() =~= groups);
}

proof fn zeros_before_are_zeros(groups: Seq<u16>, end: int)
    requires
        0 <= end <= groups.len(),
    ensures
        0 <= zeros_before(groups, end) <= end,
        forall|i: int| end - zeros_before(groups, end) <= i < end ==> groups[i] == 0,
        zeros_before(groups, end) < end ==> groups[end - zeros_before(groups, end) - 1] != 0,
    decreases end,
{
    if end > 0 && groups[end - 1] == 0 {
        zeros_before_are_zeros(groups, end - 1);
    }
}

/// The run that is left out of an IPv6 address is made of zero groups, no other
/// run of zeros is longer, and none before it is as long.
pub proof fn law_longest_zeros_are_left_out(groups: Seq<u16>, end: int, from: int, to: int)
    requires
        0 <= end <= groups.len(),
        0 <= from <= to <= end,
        forall|i: int| from <= i < to ==> groups[i] == 0,
    ensures
        ({
            let (start, length) = longest_zeros(groups, end);
            &&& 0 <= start <= start + length <= end
            &&& forall|i: int| start <= i < start + length ==> groups[i] == 0
            &&& to - from <= length
            &&& from < start ==> to - from < length
        }),
    decreases end,
{
    if end > 0 {
        zeros_before_are_zeros(groups, end);
        if to == end {
            let run = zeros_before(groups, end);
            if from < end - run {
                assert(groups[end - run - 1] == 0);
            }
            if from < end {
                law_longest_zeros_are_left_out(groups, end - 1, from, end - 1);
            } else {
                law_longest_zeros_are_left_out(groups, end - 1, end - 1, end - 1);
            }
        } else {
            law_longest_zeros_are_left_out(groups, end - 1, from, to);
        }
    }
}

/// An IPv6 address is printed group by group, with the longest run of two or more
/// zero groups as `::`; one whose first five groups are zero and whose sixth is
/// `ffff` is printed with its last two groups as an IPv4 address.
pub proof fn law_ipv6_address_in_print(bits: u128)
    ensures
        bits / 0x1_0000_0000 == 0xffff ==> ipv6_text(bits) == "::ffff:"@ + ipv4_text(
            (bits % 0x1_0000_0000) as u32,
        ),
        bits / 0x1_0000_0000 != 0xffff ==> ({
            let groups = ipv6_groups(bits);
            let (start, length) = longest_zeros(groups, 8);
            ipv6_text(bits) == if length >= 2 {
                groups_text(groups.subrange(0, start)) + seq![':', ':'] + groups_text(
                    groups.subrange(start + length, 8),
                )
            } else {
                groups_text(groups)
            }
        }),
{
    reveal_strlit("::");
    assert("::"@ =~= seq![':', ':']);
    assert(bits >> 32 == bits / 0x1_0000_0000) by (bit_vector);
    assert(bits & 0xffff_ffff == bits % 0x1_0000_0000) by (bit_vector);
    let groups = ipv6_groups(bits);
    law_longest_zeros_are_left_out(groups, 8, 0, 0);
    let (start, length) = longest_zeros(groups, 8);
    assert(groups.take(start) =~= groups.subrange(0, start));
    assert(groups.skip(start + length) =~= groups.subrange(start + length, 8));
}

/// An address is followed by a colon and the port in decimal, and an IPv6 address
/// stands in square brackets.
pub proof fn law_socket_address_in_print(v4: u32, v6: u128, port: u16)
    ensures
        socket_addr_text(SocketAddr { ip: IpAddr::V4(v4), port }) == ipv4_text(v4) + seq![':']
            + decimal(port as nat),
        socket_addr_text(SocketAddr { ip: IpAddr::V6(v6), port }) == seq!['['] + ipv6_text(v6)
            + seq![']'] + seq![':'] + decimal(port as nat),
{
    assert(seq![']', ':'] =~= seq![']'] + seq![':']);
    assert(seq!['['] + ipv6_text(v6) + seq![']', ':'] + decimal(port as nat) =~= seq!['[']
        + ipv6_text(v6) + seq![']'] + seq![':'] + decimal(port as nat));
}

/// An address is printed behind what was printed before, on every call.
pub proof fn law_calls_print_addresses(out: &mut String, addr: SocketAddr)
    ensures
        call_ensures(push_socket_addr, (out, addr), ()) ==> final(out)@ == old(out)@
            + socket_addr_text(addr),
{
}

} // verus!
