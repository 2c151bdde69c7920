//! IP packets, as the relay sees them once their headers were read.

use vstd::prelude::*;

use crate::relay::net::IpAddr;

verus! {

/// The size of the largest packet.
pub const MAX_PACKET_LENGTH: usize = 65536;

/// The transport protocol of a packet.
#[derive(Clone, Copy, Debug, PartialEq, Eq, Structural)]
pub enum Protocol {
    Tcp,
    Udp,
    Other,
}

/// What the relay reads in an IP header.
#[derive(Clone, Copy, Debug, PartialEq, Eq, Structural)]
pub struct IpHeaderData {
    pub protocol: Protocol,
    pub source: IpAddr,
    pub destination: IpAddr,
}

/// What the relay reads in a TCP or UDP header.
#[derive(Clone, Copy, Debug, PartialEq, Eq, Structural)]
pub struct TransportHeaderData {
    pub source_port: u16,
    pub destination_port: u16,
}

/// A packet and what its headers say.
#[derive(Debug)]
pub struct IpPacket {
    /// The whole packet, headers included.
    pub raw: Vec<u8>,
    /// Whether the packet is one that can be routed.
    pub valid: bool,
    pub ip_header: IpHeaderData,
    /// Present for the protocols whose header is understood.
    pub transport_header: Option<TransportHeaderData>,
    /// What follows the transport header, where there is one.
    pub payload: Option<Vec<u8>>,
}

impl IpPacket {
    /// The number of bytes of the packet.
    pub fn length(&self) -> (n: usize)
        ensures
            n == self.raw@.len(),
    {
        self.raw.len()
    }
}

/// The length of a packet is that of its bytes.
pub proof fn law_calls_tell_the_length(ip_packet: IpPacket, n: usize)
    ensures
        call_ensures(IpPacket::length, (&ip_packet,), n) ==> n == ip_packet.raw@.len(),
{
}

} // verus!
