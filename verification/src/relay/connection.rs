//! The flows between a device and the internet: what they are, and what a
//! connection that serves one can do.

use vstd::prelude::*;

use crate::relay::client_channel::{ClientChannel, Outgoing};
use crate::relay::ip_packet::{IpHeaderData, IpPacket, Protocol, TransportHeaderData};
use crate::relay::net::{push_socket_addr, IpAddr, SocketAddr};
#[allow(unused_imports)]
use crate::relay::net::socket_addr_text;

verus! {

/// 10.0.2.2: the address under which an Android device reaches the machine
/// that it is attached to.
pub const LOCALHOST_FORWARD_V4: u32 = 0x0a00_0202;

/// 127.0.0.1.
pub const LOCALHOST_V4: u32 = 0x7f00_0001;

/// Serves one flow.
pub trait Connection: Sized {
    /// The flow that the connection serves.
    spec fn flow(&self) -> Flow;

    /// Whether the connection's parts fit together.
    spec fn wf(&self) -> bool;

    /// Whether the connection was closed.
    spec fn closed(&self) -> bool;

    /// Whether the connection has been idle for too long at `now`.
    spec fn expired(&self, now: u64) -> bool;

    /// What becomes of a connection that is given a packet from the device, and
    /// of the channel back to the device.
    spec fn sends(
        before: Self,
        channel_before: Outgoing,
        ip_packet: IpPacket,
        after: Self,
        channel_after: Outgoing,
    ) -> bool;

    /// What becomes of a connection that is closed.
    spec fn closes(before: Self, after: Self) -> bool;

    /// The flow that the connection serves.
    fn id(&self) -> (id: &ConnectionId)
        requires
            self.wf(),
        ensures
            id.wf(),
            id@ == self.flow(),
    ;

    /// Takes a packet from the device.
    fn send_to_network(&mut self, client_channel: &mut ClientChannel, ip_packet: &IpPacket)
        requires
            old(self).wf(),
            old(client_channel).wf(),
        ensures
            final(self).wf(),
            final(client_channel).wf(),
            final(self).flow() == old(self).flow(),
            Self::sends(
                *old(self),
                old(client_channel)@,
                *ip_packet,
                *final(self),
                final(client_channel)@,
            ),
    ;

    /// Closes the connection.
    fn close(&mut self)
        requires
            old(self).wf(),
        ensures
            final(self).wf(),
            final(self).closed(),
            final(self).flow() == old(self).flow(),
            Self::closes(*old(self), *final(self)),
    ;

    /// Whether the connection has been idle for too long.
    fn is_expired(&self, now: u64) -> (r: bool)
        requires
            self.wf(),
        ensures
            r == self.expired(now),
    ;

    /// Whether the connection was closed.
    fn is_closed(&self) -> (r: bool)
        requires
            self.wf(),
        ensures
            r == self.closed(),
    ;
}

/// Identifies one flow of one client.
#[derive(Debug)]
pub struct ConnectionId {
    client_label: String,
    protocol: Protocol,
    source_ip: IpAddr,
    source_port: u16,
    destination_ip: IpAddr,
    destination_port: u16,
    id_string: String,
}

/// What tells one flow from another.
pub struct Flow {
    pub client_label: Seq<char>,
    pub protocol: Protocol,
    pub source: SocketAddr,
    pub destination: SocketAddr,
}

impl View for ConnectionId {
    type V = Flow;

    closed spec fn view(&self) -> Flow {
        Flow {
            client_label: self.client_label@,
            protocol: self.protocol,
            source: SocketAddr { ip: self.source_ip, port: self.source_port },
            destination: SocketAddr { ip: self.destination_ip, port: self.destination_port },
        }
    }
}

/// The flow that the headers of a packet belong to.
pub open spec fn flow_of(
    ip_header: IpHeaderData,
    transport_header: TransportHeaderData,
    client_label: Seq<char>,
) -> Flow {
    Flow {
        client_label,
        protocol: ip_header.protocol,
        source: SocketAddr { ip: ip_header.source, port: transport_header.source_port },
        destination: SocketAddr {
            ip: ip_header.destination,
            port: transport_header.destination_port,
        },
    }
}

/// The two ends of a flow, as in `10.0.0.2:5000 -> 8.8.8.8:53`.
pub open spec fn flow_text(flow: Flow) -> Seq<char> {
    socket_addr_text(flow.source) + " -> "@ + socket_addr_text(flow.destination)
}

/// A flow as it is printed: its two ends, after the client's label where it has
/// one.
pub open spec fn flow_display(flow: Flow) -> Seq<char> {
    if flow.client_label.len() == 0 {
        flow_text(flow)
    } else {
        "[Client "@ + flow.client_label + "] "@ + flow_text(flow)
    }
}

/// Where the packets of a flow are sent: the destination, except that 10.0.2.2
/// stands for this machine.
pub open spec fn forwarded(destination: SocketAddr) -> SocketAddr {
    if destination.ip == IpAddr::V4(LOCALHOST_FORWARD_V4) {
        SocketAddr { ip: IpAddr::V4(LOCALHOST_V4), port: destination.port }
    } else {
        destination
    }
}

impl ConnectionId {
    /// The printed form goes with the flow.
    pub closed spec fn wf(&self) -> bool {
        self.id_string@ == flow_text(self@)
    }

    /// The flow that the headers of a packet belong to.
    pub fn from_headers(
        ip_header_data: &IpHeaderData,
        transport_header_data: &TransportHeaderData,
        client_label: &str,
    ) -> (id: ConnectionId)
        ensures
            id.wf(),
            id@ == flow_of(*ip_header_data, *transport_header_data, client_label@),
    {
        let source_ip = ip_header_data.source;
        let source_port: u16 = transport_header_data.source_port;
        let destination_ip = ip_header_data.destination;
        let destination_port: u16 = transport_header_data.destination_port;
        let mut id_string = String::new();
        push_socket_addr(&mut id_string, SocketAddr { ip: source_ip, port: source_port });
        id_string.append(" -> ");
        push_socket_addr(&mut id_string, SocketAddr { ip: destination_ip, port: destination_port });
        let id = ConnectionId {
            client_label: client_label.to_string(),
            protocol: ip_header_data.protocol,
            source_ip,
            source_port,
            destination_ip,
            destination_port,
            id_string,
        };
        assert(id.id_string@ =~= flow_text(id@));
        id
    }

    /// The transport protocol of the flow.
    pub fn protocol(&self) -> (p: Protocol)
        ensures
            p == self@.protocol,
    {
        self.protocol
    }

    /// Where to send the packets of the flow.
    pub fn rewritten_destination(&self) -> (addr: SocketAddr)
        ensures
            addr == forwarded(self@.destination),
    {
        let ip = match self.destination_ip {
            IpAddr::V4(bits) => {
                if bits == LOCALHOST_FORWARD_V4 {
                    IpAddr::V4(LOCALHOST_V4)
                } else {
                    self.destination_ip
                }
            },
            _ => self.destination_ip,
        };
        SocketAddr { ip, port: self.destination_port }
    }

    /// The flow in print.
    pub fn to_string(&self) -> (s: String)
        requires
            self.wf(),
        ensures
            s@ == flow_display(self@),
    {
        if self.client_label.as_str().is_empty() {
            self.id_string.clone()
        } else {
            let mut s = String::new();
            s.append("[Client ");
            s.append(self.client_label.as_str());
            s.append("] ");
            s.append(self.id_string.as_str());
            assert(s@ =~= flow_display(self@));
            s
        }
    }
}

impl Clone for ConnectionId {
    fn clone(&self) -> (id: ConnectionId)
        ensures
            id == *self,
    {
        ConnectionId {
            client_label: self.client_label.clone(),
            protocol: self.protocol,
            source_ip: self.source_ip,
            source_port: self.source_port,
            destination_ip: self.destination_ip,
            destination_port: self.destination_port,
            id_string: self.id_string.clone(),
        }
    }
}

impl PartialEq for ConnectionId {
    fn eq(&self, other: &ConnectionId) -> (r: bool) {
        self.client_label == other.client_label && self.protocol == other.protocol
            && self.source_ip == other.source_ip && self.source_port == other.source_port
            && self.destination_ip == other.destination_ip && self.destination_port
            == other.destination_port
    }
}

impl vstd::std_specs::cmp::PartialEqSpecImpl for ConnectionId {
    open spec fn obeys_eq_spec() -> bool {
        true
    }

    open spec fn eq_spec(&self, other: &ConnectionId) -> bool {
        self@ == other@
    }
}

impl Eq for ConnectionId {

}

/// Only traffic for 10.0.2.2 is sent elsewhere than to its destination, and the
/// port is always kept.
pub proof fn law_only_localhost_is_rewritten(destination: SocketAddr)
    ensures
        forwarded(destination).port == destination.port,
        forwarded(destination) != destination <==> destination.ip == IpAddr::V4(
            LOCALHOST_FORWARD_V4,
        ),
        forwarded(forwarded(destination)) == forwarded(destination),
        destination.ip is V6 ==> forwarded(destination).ip is V6,
{
}

/// Traffic for 10.0.2.2 goes to 127.0.0.1, with its port, and all other traffic
/// where it was sent to.
pub proof fn law_destinations(bits: u32, wide: u128, port: u16)
    ensures
        forwarded(SocketAddr { ip: IpAddr::V4(bits), port }) == (SocketAddr {
            ip: IpAddr::V4(
                if bits == 0x0a00_0202 {
                    0x7f00_0001
                } else {
                    bits
                },
            ),
            port,
        }),
        forwarded(SocketAddr { ip: IpAddr::V6(wide), port }) == (SocketAddr {
            ip: IpAddr::V6(wide),
            port,
        }),
{
}

/// Packets belong to the same flow exactly where client, protocol, both addresses
/// and both ports are the same.
pub proof fn law_flows_are_told_apart(
    first: IpHeaderData,
    first_ports: TransportHeaderData,
    first_label: Seq<char>,
    second: IpHeaderData,
    second_ports: TransportHeaderData,
    second_label: Seq<char>,
)
    ensures
        flow_of(first, first_ports, first_label) == flow_of(second, second_ports, second_label)
            <==> {
            &&& first_label == second_label
            &&& first.protocol == second.protocol
            &&& first.source == second.source
            &&& first.destination == second.destination
            &&& first_ports.source_port == second_ports.source_port
            &&& first_ports.destination_port == second_ports.destination_port
        },
{
    let a = flow_of(first, first_ports, first_label);
    let b = flow_of(second, second_ports, second_label);
    assert(a.source.ip == first.source && b.source.ip == second.source);
}

/// A flow goes from the source to the destination that the headers tell.
pub proof fn law_flow_has_the_ends_of_its_packets(
    ip_header: IpHeaderData,
    ports: TransportHeaderData,
    label: Seq<char>,
)
    ensures
        flow_of(ip_header, ports, label).source.ip == ip_header.source,
        flow_of(ip_header, ports, label).source.port == ports.source_port,
        flow_of(ip_header, ports, label).destination.ip == ip_header.destination,
        flow_of(ip_header, ports, label).destination.port == ports.destination_port,
        flow_of(ip_header, ports, label).protocol == ip_header.protocol,
        flow_of(ip_header, ports, label).client_label == label,
{
}

/// A flow is printed as its source, an arrow and its destination, after the label
/// of its client in brackets where there is one.
pub proof fn law_flow_in_print(flow: Flow)
    ensures
        flow.client_label.len() == 0 ==> flow_display(flow) == socket_addr_text(flow.source)
            + " -> "@ + socket_addr_text(flow.destination),
        flow.client_label.len() > 0 ==> flow_display(flow) == "[Client "@ + flow.client_label
            + "] "@ + (socket_addr_text(flow.source) + " -> "@ + socket_addr_text(
            flow.destination,
        )),
{
}

/// A flow is made from the headers of a packet, and tells its protocol, where its
/// packets go and how it is printed, on every call.
pub proof fn law_calls_identify_flows(
    ip_header: IpHeaderData,
    ports: TransportHeaderData,
    label: &str,
    id: ConnectionId,
    protocol: Protocol,
    addr: SocketAddr,
    text: String,
)
    ensures
        call_ensures(ConnectionId::from_headers, (&ip_header, &ports, label), id) ==> {
            &&& id.wf()
            &&& id@.client_label == label@
            &&& id@.protocol == ip_header.protocol
            &&& id@.source == (SocketAddr { ip: ip_header.source, port: ports.source_port })
            &&& id@.destination == (SocketAddr {
                ip: ip_header.destination,
                port: ports.destination_port,
            })
        },
        call_ensures(ConnectionId::protocol, (&id,), protocol) ==> protocol == id@.protocol,
        call_ensures(ConnectionId::rewritten_destination, (&id,), addr) ==> addr == forwarded(
            id@.destination,
        ),
        call_ensures(ConnectionId::to_string, (&id,), text) ==> text@ == flow_display(id@),
{
}

} // verus!
