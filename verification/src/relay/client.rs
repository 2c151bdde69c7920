//! One device: its connections, and the packets on their way to it.

use vstd::prelude::*;

use crate::io_error::IoError;
use crate::relay::client_channel::{ClientChannel, Outgoing, SharedBuffer};
use crate::relay::connection::{Connection, ConnectionId};
#[allow(unused_imports)]
use crate::relay::connection::Flow;
#[allow(unused_imports)]
use crate::relay::net::SocketAddr;
use crate::relay::ip_packet::{IpPacket, MAX_PACKET_LENGTH};
use crate::relay::ip_packet_buffer::IpPacketBuffer;
use crate::relay::router::{ConnectionKind, Router, Routes, Routing};
use crate::text::push_decimal;
#[allow(unused_imports)]
use crate::io_error::ErrorKind;
#[allow(unused_imports)]
use crate::relay::ip_packet::Protocol;
#[allow(unused_imports)]
use crate::relay::ip_packet_buffer::{
    complete_length, in_step, law_stream_in_parts, packets_in, raw_packets, rest_of,
};
#[allow(unused_imports)]
use crate::relay::router::{
    active, closed_down, distinct, every_connection_is_kept_or_idle, idle, law_routing_is_decided,
    leaves, leaving, opened, opens, packet_flow, routed, serves, surviving,
};
#[allow(unused_imports)]
use crate::text::{
    decimal, law_decimal_round_trip, length_before, length_before_is_first, optional_text,
};

verus! {

/// The state of one device.
pub struct Client<C: Connection> {
    id: u32,
    serial: Option<String>,
    label: String,
    client_to_network: IpPacketBuffer,
    network_to_client: ClientChannel,
    router: Router<C>,
    closed: bool,
}

/// What a client holds.
pub struct ClientState<C> {
    pub id: u32,
    /// The adb serial of the device, where it is known.
    pub serial: Option<Seq<char>>,
    /// How the client is called in messages and in the identity of its flows.
    pub label: Seq<char>,
    /// The bytes from the device that do not make a whole packet yet.
    pub unread: Seq<u8>,
    pub outgoing: Outgoing,
    pub routes: Routes<C>,
    pub closed: bool,
}

impl<C: Connection> View for Client<C> {
    type V = ClientState<C>;

    closed spec fn view(&self) -> ClientState<C> {
        ClientState {
            id: self.id,
            serial: optional_text(self.serial),
            label: self.label@,
            unread: self.client_to_network@,
            outgoing: self.network_to_client@,
            routes: self.router@,
            closed: self.closed,
        }
    }
}

/// The label of a client: `#N (serial)`, or `#N` when the serial is not known.
pub open spec fn client_label(id: u32, serial: Option<Seq<char>>) -> Seq<char> {
    let number = seq!['#'] + decimal(id as nat);
    match serial {
        Some(s) => number + " ("@ + s + ")"@,
        None => number,
    }
}

/// A client without connections.
pub open spec fn new_client<C>(id: u32, serial: Option<Seq<char>>) -> ClientState<C> {
    ClientState {
        id,
        serial,
        label: client_label(id, serial),
        unread: Seq::empty(),
        outgoing: Outgoing {
            busy: false,
            bytes: Seq::empty(),
            capacity: 16 * MAX_PACKET_LENGTH as nat,
        },
        routes: Routes {
            client: Some(id),
            has_buffer: true,
            client_label: client_label(id, serial),
            connections: Seq::empty(),
        },
        closed: false,
    }
}

/// Makes the label of a client.
pub fn make_label(id: u32, serial: &Option<String>) -> (label: String)
    ensures
        label@ == client_label(id, optional_text(*serial)),
{
    let mut label = String::new();
    label.push('#');
    push_decimal(&mut label, id as u64);
    match serial {
        Some(s) => {
            label.append(" (");
            label.append(s.as_str());
            label.append(")");
        },
        None => {},
    }
    assert(label@ =~= client_label(id, optional_text(*serial)));
    label
}

/// The packets that a read from the device completed, and how many of them were
/// routed.
pub struct DeviceFeed {
    packets: Vec<IpPacket>,
    next: usize,
}

/// The packets that are routed after a read: all that are complete, and none where
/// the read failed or brought nothing.
pub open spec fn packets_to_route(
    read: Result<bool, IoError>,
    packets: Seq<IpPacket>,
) -> Seq<IpPacket> {
    match read {
        Ok(brought) => if brought {
            packets
        } else {
            Seq::empty()
        },
        Err(_) => Seq::empty(),
    }
}

impl DeviceFeed {
    /// The packets to route.
    pub closed spec fn packets(&self) -> Seq<IpPacket> {
        self.packets@
    }

    /// How many of them were routed.
    pub closed spec fn done(&self) -> nat {
        self.next as nat
    }

    /// No more packets were routed than there are.
    pub open spec fn wf(&self) -> bool {
        self.done() <= self.packets().len()
    }

    /// The packets that are complete after a read. There are none to route where
    /// the read failed or brought nothing.
    pub fn new(read: Result<bool, IoError>, packets: Vec<IpPacket>) -> (feed: DeviceFeed)
        ensures
            feed.wf(),
            feed.done() == 0,
            feed.packets() == packets_to_route(read, packets@),
    {
        let fed = match read {
            Ok(fed) => fed,
            Err(_) => false,
        };
        let feed = if fed {
            DeviceFeed { packets, next: 0 }
        } else {
            DeviceFeed { packets: Vec::new(), next: 0 }
        };
        assert(feed.packets() =~= packets_to_route(read, packets@));
        feed
    }

    /// How many packets were routed.
    pub fn count(&self) -> (n: usize)
        ensures
            n == self.done(),
    {
        self.next
    }

    /// The packet at a position.
    pub fn packet(&self, i: usize) -> (ip_packet: &IpPacket)
        requires
            i < self.packets().len(),
        ensures
            *ip_packet == self.packets()[i as int],
    {
        &self.packets[i]
    }
}

/// A connection that is to be opened for a flow.
pub struct OpenRequest {
    pub id: ConnectionId,
    pub kind: ConnectionKind,
    /// The position of the packet that began the flow.
    pub packet: usize,
}

/// Whether a connection is to be opened for a packet that was routed like this.
/// There is none for a flow whose protocol is not supported.
pub open spec fn needs_connection(routing: Routing) -> bool {
    routing matches Routing::Create(id) && id@.protocol != Protocol::Other
}

/// The router and the channel to the device, at one moment.
pub struct Moment<C> {
    pub routes: Routes<C>,
    pub outgoing: Outgoing,
}

/// Whether routing these packets one after the other goes through these
/// moments.
pub open spec fn route_through<C: Connection>(
    moments: Seq<Moment<C>>,
    packets: Seq<IpPacket>,
    routings: Seq<Routing>,
) -> bool {
    &&& moments.len() == packets.len() + 1
    &&& routings.len() == packets.len()
    &&& forall|i: int|
        0 <= i < packets.len() ==> routed(
            moments[i].routes,
            moments[i].outgoing,
            packets[i],
            moments[i + 1].routes,
            moments[i + 1].outgoing,
            #[trigger] routings[i],
        )
}

/// What feeding packets to a client does: they are routed in order, up to and
/// with the first that needs a connection opened.
pub open spec fn fed<C: Connection>(
    before: Moment<C>,
    packets: Seq<IpPacket>,
    after: Moment<C>,
    asked: Option<ConnectionId>,
) -> bool {
    exists|moments: Seq<Moment<C>>, routings: Seq<Routing>|
        {
            &&& #[trigger] route_through(moments, packets, routings)
            &&& moments.first() == before
            &&& moments.last() == after
            &&& forall|i: int|
                0 <= i < routings.len() - 1 ==> !needs_connection(#[trigger] routings[i])
            &&& match asked {
                Some(id) => routings.len() > 0 && needs_connection(routings.last())
                    && routings.last() == Routing::Create(id),
                None => routings.len() > 0 ==> !needs_connection(routings.last()),
            }
        }
}

/// Whether a packet begins a flow that a connection can be opened for.
pub open spec fn begins_flow<C: Connection>(routes: Routes<C>, ip_packet: IpPacket) -> bool {
    &&& ip_packet.valid
    &&& ip_packet.transport_header is Some
    &&& ip_packet.ip_header.protocol != Protocol::Other
    &&& routes.has_buffer
    &&& !serves(routes.connections, packet_flow(ip_packet, routes.client_label))
}

/// Whether the request is for the connection of the flow that a packet begins.
pub open spec fn asks_for<C: Connection>(
    routes: Routes<C>,
    ip_packet: IpPacket,
    request: OpenRequest,
) -> bool {
    &&& begins_flow(routes, ip_packet)
    &&& request.id@ == packet_flow(ip_packet, routes.client_label)
    &&& request.kind == ConnectionKind::Tcp <==> request.id@.protocol == Protocol::Tcp
}

/// What a packet from the device does: it is routed, and one that begins a flow
/// goes to the connection that is opened for it.
pub open spec fn handled<C: Connection>(
    before: Moment<C>,
    ip_packet: IpPacket,
    after: Moment<C>,
) -> bool {
    if begins_flow(before.routes, ip_packet) {
        exists|created: Result<C, IoError>|
            {
                &&& opens(before.routes, created, ip_packet)
                &&& #[trigger] opened(
                    before.routes,
                    before.outgoing,
                    created,
                    ip_packet,
                    after.routes,
                    after.outgoing,
                )
            }
    } else {
        exists|routing: Routing| #[trigger]
            routed(
                before.routes,
                before.outgoing,
                ip_packet,
                after.routes,
                after.outgoing,
                routing,
            )
    }
}

/// Whether the packet at a position goes from its moment to the next.
pub open spec fn handled_at<C: Connection>(
    moments: Seq<Moment<C>>,
    packets: Seq<IpPacket>,
    i: int,
) -> bool {
    handled(moments[i], packets[i], moments[i + 1])
}

/// Whether these packets, one after the other, go through these moments.
pub open spec fn handled_through<C: Connection>(
    moments: Seq<Moment<C>>,
    packets: Seq<IpPacket>,
) -> bool {
    &&& moments.len() == packets.len() + 1
    &&& forall|i: int| 0 <= i < packets.len() ==> #[trigger] handled_at(moments, packets, i)
}

/// What feeding packets to a client does, with every connection opened that is
/// asked for: each packet is handled once, in order.
pub open spec fn fed_whole<C: Connection>(
    before: Moment<C>,
    packets: Seq<IpPacket>,
    after: Moment<C>,
) -> bool {
    exists|moments: Seq<Moment<C>>|
        {
            &&& #[trigger] handled_through(moments, packets)
            &&& moments.first() == before
            &&& moments.last() == after
        }
}

impl<C: Connection> Client<C> {
    /// The client's router and buffers are in order.
    pub open spec fn wf(&self) -> bool {
        &&& self.unread_wf()
        &&& self.channel_wf()
        &&& self.router_wf()
    }

    /// No whole packet from the device was left unread.
    pub open spec fn unread_wf(&self) -> bool {
        complete_length(self@.unread) is None
    }

    /// The client's buffer is in order.
    pub open spec fn channel_wf(&self) -> bool {
        self@.outgoing.bytes.len() <= self@.outgoing.capacity
    }

    /// The client's router is in order.
    pub open spec fn router_wf(&self) -> bool {
        distinct(self@.routes.connections)
    }

    /// The router and the channel to the device.
    pub open spec fn moment(&self) -> Moment<C> {
        Moment { routes: self@.routes, outgoing: self@.outgoing }
    }

    /// A client without connections.
    pub fn create(id: u32, serial: Option<String>) -> (r: Result<Client<C>, IoError>)
        ensures
            r matches Ok(client) && client.wf() && client@ == new_client::<C>(
                id,
                optional_text(serial),
            ),
    {
        let label = make_label(id, &serial);
        let network_to_client = ClientChannel::new(SharedBuffer::new(16 * MAX_PACKET_LENGTH));
        let mut router: Router<C> = Router::new();
        router.set_buffer();
        router.set_client_label(label.as_str());
        router.set_client(id);
        let client_to_network = IpPacketBuffer::new();
        Ok(
            Client {
                id,
                serial,
                label,
                client_to_network,
                network_to_client,
                router,
                closed: false,
            },
        )
    }

    /// The number of the client.
    pub fn id(&self) -> (id: u32)
        ensures
            id == self@.id,
    {
        self.id
    }

    /// Whether the client was closed.
    pub fn is_closed(&self) -> (r: bool)
        ensures
            r == self@.closed,
    {
        self.closed
    }

    /// The connections of the client.
    pub fn router(&mut self) -> (router: &mut Router<C>)
        ensures
            router@ == old(self)@.routes,
            final(self)@ == (ClientState { routes: final(router)@, ..old(self)@ }),
    {
        &mut self.router
    }

    /// A channel that connections can use to write back to the device.
    pub fn channel(&mut self) -> (channel: &mut ClientChannel)
        ensures
            channel@ == old(self)@.outgoing,
            final(self)@ == (ClientState { outgoing: final(channel)@, ..old(self)@ }),
    {
        &mut self.network_to_client
    }

    /// A connection to poll, and the channel that it writes to.
    pub fn connection_and_channel(&mut self, i: usize) -> (r: (&mut C, &mut ClientChannel))
        requires
            i < old(self)@.routes.connections.len(),
        ensures
            *r.0 == old(self)@.routes.connections[i as int],
            r.1@ == old(self)@.outgoing,
            final(self)@ == (ClientState {
                outgoing: final(r.1)@,
                routes: Routes {
                    connections: old(self)@.routes.connections.update(i as int, *final(r.0)),
                    ..old(self)@.routes
                },
                ..old(self)@
            }),
    {
        (self.router.connection(i), &mut self.network_to_client)
    }

    /// Closes the client and all its connections, which are handed out to be let
    /// go of.
    pub fn close(&mut self) -> (connections: Vec<C>)
        requires
            old(self).wf(),
        ensures
            final(self).wf(),
            final(self)@ == (ClientState {
                closed: true,
                routes: Routes { connections: Seq::<C>::empty(), ..old(self)@.routes },
                ..old(self)@
            }),
            connections@.len() == old(self)@.routes.connections.len(),
            forall|i: int|
                0 <= i < connections@.len() ==> closed_down(
                    old(self)@.routes.connections[i],
                    #[trigger] connections@[i],
                ),
    {
        self.closed = true;
        self.router.clear()
    }

    /// Writes an IP packet into the outgoing buffer to the device.
    ///
    /// Fails with `WouldBlock` if the buffer is in use or too full.
    pub fn send_to_client(&mut self, ip_packet: &IpPacket) -> (r: Result<(), IoError>)
        requires
            old(self).wf(),
        ensures
            final(self).wf(),
            final(self)@ == (ClientState {
                outgoing: old(self)@.outgoing.offered(ip_packet.raw@),
                ..old(self)@
            }),
            match r {
                Ok(_) => old(self)@.outgoing.accepts(ip_packet.raw@),
                Err(e) => {
                    &&& !old(self)@.outgoing.accepts(ip_packet.raw@)
                    &&& e.says(
                        ErrorKind::WouldBlock,
                        if old(self)@.outgoing.busy {
                            "client buffer busy"@
                        } else {
                            "Client buffer full"@
                        },
                    )
                },
            },
    {
        self.network_to_client.send_to_client(ip_packet)
    }

    /// Closes and removes the connections that have been idle for too long,
    /// which are handed out to be let go of.
    pub fn clean_expired_connections(&mut self, now: u64) -> (closed: Vec<C>)
        requires
            old(self).wf(),
        ensures
            final(self).wf(),
            final(self)@ == (ClientState {
                routes: Routes {
                    connections: active(old(self)@.routes.connections, now),
                    ..old(self)@.routes
                },
                ..old(self)@
            }),
            closed@.len() == idle(old(self)@.routes.connections, now).len(),
            forall|i: int|
                0 <= i < closed@.len() ==> closed_down(
                    idle(old(self)@.routes.connections, now)[i],
                    #[trigger] closed@[i],
                ),
    {
        self.router.clean_expired_connections(now)
    }

    /// Takes bytes from the device, and hands out the packets that are complete
    /// now, to have their headers read.
    pub fn read_device_data(&mut self, data: &[u8]) -> (packets: Vec<Vec<u8>>)
        requires
            old(self).wf(),
        ensures
            final(self).wf(),
            raw_packets(packets@) == packets_in(old(self)@.unread + data@),
            final(self)@ == (ClientState {
                unread: rest_of(old(self)@.unread + data@),
                ..old(self)@
            }),
    {
        self.client_to_network.read_from(data)
    }

    /// Routes the packets that a read completed, up to and with the first that
    /// needs a connection opened. Once there is nothing to open, all of them
    /// were routed.
    pub fn feed_device_data(&mut self, feed: &mut DeviceFeed) -> (asked: Option<OpenRequest>)
        requires
            old(self).wf(),
            old(feed).wf(),
        ensures
            final(self).wf(),
            final(feed).wf(),
            final(feed).packets() == old(feed).packets(),
            old(feed).done() <= final(feed).done(),
            final(self)@ == (ClientState {
                routes: final(self)@.routes,
                outgoing: final(self)@.outgoing,
                ..old(self)@
            }),
            fed(
                old(self).moment(),
                old(feed).packets().subrange(old(feed).done() as int, final(feed).done() as int),
                final(self).moment(),
                match asked {
                    Some(request) => Some(request.id),
                    None => None,
                },
            ),
            match asked {
                Some(request) => {
                    &&& request.id.wf()
                    &&& request.packet + 1 == final(feed).done()
                    &&& asks_for(
                        final(self)@.routes,
                        final(feed).packets()[request.packet as int],
                        request,
                    )
                },
                None => final(feed).done() == final(feed).packets().len(),
            },
    {
        let ghost start = feed.done() as int;
        let ghost all = feed.packets();
        let ghost mut moments: Seq<Moment<C>> = seq![self.moment()];
        let ghost mut routings: Seq<Routing> = Seq::empty();
        assert(route_through(moments, all.subrange(start, start), routings));
        while feed.next < feed.packets.len()
            invariant
                self.wf(),
                feed.wf(),
                feed.packets() == all,
                old(feed).packets() == all,
                old(feed).done() == start,
                start <= feed.done(),
                self@ == (ClientState {
                    routes: self@.routes,
                    outgoing: self@.outgoing,
                    ..old(self)@
                }),
                route_through(moments, all.subrange(start, feed.done() as int), routings),
                moments.first() == old(self).moment(),
                moments.last() == self.moment(),
                forall|i: int|
                    0 <= i < routings.len() ==> !needs_connection(#[trigger] routings[i]),
            decreases all.len() - feed.done(),
        {
            let i: usize = feed.next;
            let routing = self.router.send_to_network(
                &mut self.network_to_client,
                &feed.packets[i],
            );
            feed.next = i + 1;
            proof {
                let seen = all.subrange(start, i as int);
                let more = all.subrange(start, i + 1);
                let old_moments = moments;
                let old_routings = routings;
                moments = moments.push(self.moment());
                routings = routings.push(routing);
                assert forall|j: int| 0 <= j < more.len() implies routed(
                    moments[j].routes,
                    moments[j].outgoing,
                    more[j],
                    moments[j + 1].routes,
                    moments[j + 1].outgoing,
                    #[trigger] routings[j],
                ) by {
                    if j < seen.len() {
                        assert(old_routings[j] == routings[j]);
                        assert(seen[j] == more[j]);
                    }
                }
                assert(route_through(moments, more, routings));
            }
            match routing {
                Routing::Create(id) => {
                    match Router::<C>::create_connection(&id, &feed.packets[i]) {
                        Ok(kind) => {
                            assert(needs_connection(routings.last()));
                            assert(feed.packets@[i as int] == all[i as int]);
                            return Some(OpenRequest { id, kind, packet: i });
                        },
                        Err(_) => {},
                    }
                },
                _ => {},
            }
        }
        None
    }

    /// Routes the packet that began a flow to the connection that was opened for
    /// it on request, and adds the connection. Where it could not be opened, the
    /// packet is dropped.
    pub fn connection_opened(&mut self, created: Result<C, IoError>, ip_packet: &IpPacket)
        requires
            old(self).wf(),
            opens(old(self)@.routes, created, *ip_packet),
        ensures
            final(self).wf(),
            final(self)@ == (ClientState {
                routes: final(self)@.routes,
                outgoing: final(self)@.outgoing,
                ..old(self)@
            }),
            opened(
                old(self)@.routes,
                old(self)@.outgoing,
                created,
                *ip_packet,
                final(self)@.routes,
                final(self)@.outgoing,
            ),
    {
        self.router.open(created, &mut self.network_to_client, ip_packet);
    }

    /// Goes through the outcomes of polling every connection, and removes the
    /// connections that are closed, which are handed out to be let go of.
    pub fn poll_network_connections(&mut self, outcomes: &Vec<Result<(), IoError>>) -> (removed:
        Vec<C>)
        requires
            old(self).wf(),
            outcomes@.len() == old(self)@.routes.connections.len(),
        ensures
            final(self).wf(),
            final(self)@ == (ClientState {
                routes: Routes {
                    connections: surviving(old(self)@.routes.connections, outcomes@),
                    ..old(self)@.routes
                },
                ..old(self)@
            }),
            removed@.len() == leaving(old(self)@.routes.connections, outcomes@).len(),
            forall|i: int|
                0 <= i < removed@.len() ==> {
                    let k = leaving(old(self)@.routes.connections, outcomes@)[i];
                    leaves(
                        old(self)@.routes.connections[k],
                        outcomes@[k],
                        #[trigger] removed@[i],
                    )
                },
    {
        self.router.poll_connections(outcomes)
    }

    /// Takes out everything that waits for the device; nothing while the buffer
    /// is in use.
    pub fn drain_outgoing(&mut self) -> (bytes: Vec<u8>)
        requires
            old(self).wf(),
        ensures
            final(self).wf(),
            bytes@ == old(self)@.outgoing.given(),
            final(self)@ == (ClientState {
                outgoing: old(self)@.outgoing.drained(),
                ..old(self)@
            }),
    {
        self.network_to_client.drain()
    }

    /// Whether there is data to send to the device.
    pub fn has_outgoing(&self) -> (r: bool)
        ensures
            r == (self@.outgoing.given().len() > 0),
    {
        self.network_to_client.has_outgoing()
    }
}

/// A feed handles each of its packets, in order: all of them where no connection
/// is asked for, and up to the one that begins a flow where one is, which is
/// handled once the connection was opened or not.
pub proof fn law_every_packet_is_handled<C: Connection>(
    before: Moment<C>,
    packets: Seq<IpPacket>,
    routed_to: Moment<C>,
    asked: Option<ConnectionId>,
    created: Result<C, IoError>,
    after: Moment<C>,
)
    requires
        fed(before, packets, routed_to, asked),
        match asked {
            Some(_) => {
                &&& opens(routed_to.routes, created, packets.last())
                &&& opened(
                    routed_to.routes,
                    routed_to.outgoing,
                    created,
                    packets.last(),
                    after.routes,
                    after.outgoing,
                )
            },
            None => after == routed_to,
        },
    ensures
        fed_whole(before, packets, after),
{
    let (moments, routings) = choose|moments: Seq<Moment<C>>, routings: Seq<Routing>|
        {
            &&& #[trigger] route_through(moments, packets, routings)
            &&& moments.first() == before
            &&& moments.last() == routed_to
            &&& forall|i: int|
                0 <= i < routings.len() - 1 ==> !needs_connection(#[trigger] routings[i])
            &&& match asked {
                Some(id) => routings.len() > 0 && needs_connection(routings.last())
                    && routings.last() == Routing::Create(id),
                None => routings.len() > 0 ==> !needs_connection(routings.last()),
            }
        };
    let through = moments.drop_last().push(after);
    let last = packets.len() - 1;
    assert forall|i: int| 0 <= i < packets.len() implies #[trigger] handled_at(
        through,
        packets,
        i,
    ) by {
        assert(routed(
            moments[i].routes,
            moments[i].outgoing,
            packets[i],
            moments[i + 1].routes,
            moments[i + 1].outgoing,
            routings[i],
        ));
        assert(through[i] == moments[i]);
        if i == last && asked is Some {
            assert(moments[i] == routed_to);
            assert(begins_flow(through[i].routes, packets[i]));
        } else {
            assert(!needs_connection(routings[i]));
            assert(through[i + 1] == moments[i + 1]);
        }
    }
    assert(handled_through(through, packets));
    assert(through.first() == before) by {
        if packets.len() == 0 {
            assert(moments.len() == 1);
        }
    }
}

/// It makes no difference whether packets are fed at once or in two parts: the
/// same packets are handled, each once and in the same order.
pub proof fn law_feeding_in_parts<C: Connection>(
    before: Moment<C>,
    first: Seq<IpPacket>,
    second: Seq<IpPacket>,
    after: Moment<C>,
)
    ensures
        fed_whole(before, first + second, after) <==> exists|between: Moment<C>| #[trigger]
            fed_whole(before, first, between) && fed_whole(between, second, after),
{
    let all = first + second;
    let n = first.len() as int;
    if fed_whole(before, all, after) {
        let moments = choose|moments: Seq<Moment<C>>|
            {
                &&& #[trigger] handled_through(moments, all)
                &&& moments.first() == before
                &&& moments.last() == after
            };
        let head = moments.take(n + 1);
        let tail = moments.skip(n);
        assert forall|i: int| 0 <= i < first.len() implies #[trigger] handled_at(
            head,
            first,
            i,
        ) by {
            assert(handled_at(moments, all, i));
        }
        assert forall|i: int| 0 <= i < second.len() implies #[trigger] handled_at(
            tail,
            second,
            i,
        ) by {
            assert(handled_at(moments, all, n + i));
        }
        assert(handled_through(head, first));
        assert(handled_through(tail, second));
        assert(fed_whole(before, first, moments[n]));
        assert(fed_whole(moments[n], second, after));
    }
    if exists|between: Moment<C>| #[trigger]
        fed_whole(before, first, between) && fed_whole(between, second, after) {
        let between = choose|between: Moment<C>| #[trigger]
            fed_whole(before, first, between) && fed_whole(between, second, after);
        let head = choose|moments: Seq<Moment<C>>|
            {
                &&& #[trigger] handled_through(moments, first)
                &&& moments.first() == before
                &&& moments.last() == between
            };
        let tail = choose|moments: Seq<Moment<C>>|
            {
                &&& #[trigger] handled_through(moments, second)
                &&& moments.first() == between
                &&& moments.last() == after
            };
        let moments = head + tail.skip(1);
        assert forall|i: int| 0 <= i < all.len() implies #[trigger] handled_at(
            moments,
            all,
            i,
        ) by {
            if i < n {
                assert(handled_at(head, first, i));
            } else {
                assert(handled_at(tail, second, i - n));
                assert(moments[i] == tail[i - n]);
            }
        }
        assert(handled_through(moments, all));
        assert(moments.last() == after) by {
            if second.len() == 0 {
                assert(moments =~= head);
            }
        }
    }
}

/// The packets that a device's bytes make, once their headers were read.
pub open spec fn packets_from(
    bytes: Seq<u8>,
    headers_read: spec_fn(Seq<u8>) -> IpPacket,
) -> Seq<IpPacket> {
    packets_in(bytes).map_values(headers_read)
}

/// It makes no difference whether a device's bytes come at once or in two parts,
/// after bytes that were left over before: the same packets are handled, each
/// once and in the same order, their numbers add up, and the same bytes are left
/// over.
pub proof fn law_device_data_in_parts<C: Connection>(
    before: Moment<C>,
    unread: Seq<u8>,
    first: Seq<u8>,
    second: Seq<u8>,
    headers_read: spec_fn(Seq<u8>) -> IpPacket,
    after: Moment<C>,
)
    requires
        in_step(unread + (first + second)),
    ensures
        ({
            let whole = packets_from(unread + (first + second), headers_read);
            let left = rest_of(unread + first);
            let head = packets_from(unread + first, headers_read);
            let tail = packets_from(left + second, headers_read);
            &&& fed_whole(before, whole, after) <==> exists|between: Moment<C>| #[trigger]
                fed_whole(before, head, between) && fed_whole(between, tail, after)
            &&& whole.len() == head.len() + tail.len()
            &&& rest_of(unread + (first + second)) == rest_of(left + second)
        }),
{
    let head = packets_from(unread + first, headers_read);
    let tail = packets_from(rest_of(unread + first) + second, headers_read);
    assert(unread + (first + second) =~= (unread + first) + second);
    law_stream_in_parts(unread + first, second);
    assert(packets_from(unread + (first + second), headers_read) =~= head + tail);
    law_feeding_in_parts(before, head, tail, after);
}

/// Where the device sends nothing, there is nothing to handle.
pub proof fn law_no_data_no_packets(unread: Seq<u8>)
    requires
        complete_length(unread) is None,
    ensures
        packets_in(unread + Seq::<u8>::empty()).len() == 0,
        rest_of(unread + Seq::<u8>::empty()) == unread,
{
    assert(unread + Seq::<u8>::empty() =~= unread);
}

/// Two feeds that follow each other route like one feed of both, where the first
/// asks for no connection.
pub proof fn law_feeds_join<C: Connection>(
    before: Moment<C>,
    first: Seq<IpPacket>,
    between: Moment<C>,
    second: Seq<IpPacket>,
    after: Moment<C>,
    asked: Option<ConnectionId>,
)
    requires
        fed(before, first, between, None),
        fed(between, second, after, asked),
    ensures
        fed(before, first + second, after, asked),
{
    let (head, head_routings) = choose|moments: Seq<Moment<C>>, routings: Seq<Routing>|
        {
            &&& #[trigger] route_through(moments, first, routings)
            &&& moments.first() == before
            &&& moments.last() == between
            &&& forall|i: int|
                0 <= i < routings.len() - 1 ==> !needs_connection(#[trigger] routings[i])
            &&& routings.len() > 0 ==> !needs_connection(routings.last())
        };
    let (tail, tail_routings) = choose|moments: Seq<Moment<C>>, routings: Seq<Routing>|
        {
            &&& #[trigger] route_through(moments, second, routings)
            &&& moments.first() == between
            &&& moments.last() == after
            &&& forall|i: int|
                0 <= i < routings.len() - 1 ==> !needs_connection(#[trigger] routings[i])
            &&& match asked {
                Some(id) => routings.len() > 0 && needs_connection(routings.last())
                    && routings.last() == Routing::Create(id),
                None => routings.len() > 0 ==> !needs_connection(routings.last()),
            }
        };
    let n = first.len() as int;
    let all = first + second;
    let moments = head + tail.skip(1);
    let routings = head_routings + tail_routings;
    assert forall|i: int| 0 <= i < all.len() implies routed(
        moments[i].routes,
        moments[i].outgoing,
        all[i],
        moments[i + 1].routes,
        moments[i + 1].outgoing,
        #[trigger] routings[i],
    ) by {
        if i < n {
            assert(routings[i] == head_routings[i]);
        } else {
            assert(routings[i] == tail_routings[i - n]);
            assert(moments[i] == tail[i - n]);
        }
    }
    assert(route_through(moments, all, routings));
    assert forall|i: int| 0 <= i < routings.len() - 1 implies !needs_connection(
        #[trigger] routings[i],
    ) by {
        if i < n {
            assert(routings[i] == head_routings[i]);
            assert(head_routings.last() == head_routings[n - 1]);
        } else {
            assert(routings[i] == tail_routings[i - n]);
        }
    }
    if second.len() == 0 {
        assert(moments =~= head);
        assert(routings =~= head_routings);
    } else {
        assert(routings.last() == tail_routings.last());
    }
}

/// A feed routes like two that follow each other, of which the first asks for no
/// connection.
pub proof fn law_feeds_split<C: Connection>(
    before: Moment<C>,
    first: Seq<IpPacket>,
    second: Seq<IpPacket>,
    after: Moment<C>,
    asked: Option<ConnectionId>,
)
    requires
        fed(before, first + second, after, asked),
        asked is Some ==> second.len() > 0,
    ensures
        exists|between: Moment<C>| #[trigger]
            fed(before, first, between, None) && fed(between, second, after, asked),
{
    let all = first + second;
    let (moments, routings) = choose|moments: Seq<Moment<C>>, routings: Seq<Routing>|
        {
            &&& #[trigger] route_through(moments, all, routings)
            &&& moments.first() == before
            &&& moments.last() == after
            &&& forall|i: int|
                0 <= i < routings.len() - 1 ==> !needs_connection(#[trigger] routings[i])
            &&& match asked {
                Some(id) => routings.len() > 0 && needs_connection(routings.last())
                    && routings.last() == Routing::Create(id),
                None => routings.len() > 0 ==> !needs_connection(routings.last()),
            }
        };
    let n = first.len() as int;
    let head = moments.take(n + 1);
    let tail = moments.skip(n);
    let head_routings = routings.take(n);
    let tail_routings = routings.skip(n);
    assert forall|i: int| 0 <= i < first.len() implies routed(
        head[i].routes,
        head[i].outgoing,
        first[i],
        head[i + 1].routes,
        head[i + 1].outgoing,
        #[trigger] head_routings[i],
    ) && !needs_connection(head_routings[i]) by {
        assert(head_routings[i] == routings[i]);
        assert(all[i] == first[i]);
        assert(routings.last() == routings[all.len() - 1]);
    }
    assert forall|i: int| 0 <= i < second.len() implies routed(
        tail[i].routes,
        tail[i].outgoing,
        second[i],
        tail[i + 1].routes,
        tail[i + 1].outgoing,
        #[trigger] tail_routings[i],
    ) by {
        assert(tail_routings[i] == routings[n + i]);
        assert(all[n + i] == second[i]);
    }
    assert(route_through(head, first, head_routings));
    assert(route_through(tail, second, tail_routings));
    assert(fed(before, first, moments[n], None));
    if second.len() > 0 {
        assert(tail_routings.last() == routings.last());
    }
    assert(fed(moments[n], second, after, asked));
}

/// How many characters of a label follow its `#` before the first space, or all
/// of them: the length of the client's number.
proof fn label_number(id: u32, serial: Option<Seq<char>>)
    ensures
        ({
            let rest = client_label(id, serial).skip(1);
            rest.take(length_before(rest, ' ')) == decimal(id as nat)
        }),
{
    law_decimal_round_trip(id as nat);
    reveal_strlit(" (");
    let number = decimal(id as nat);
    let label = client_label(id, serial);
    let rest = label.skip(1);
    length_before_is_first(rest, ' ');
    let n = length_before(rest, ' ');
    assert forall|i: int| 0 <= i < number.len() implies rest[i] == number[i] && rest[i] != ' ' by {
        assert('0' <= number[i] <= '9');
    }
    match serial {
        Some(s) => {
            assert(rest[number.len() as int] == " ("@[0]);
            assert(" ("@[0] == ' ');
            assert(n == number.len());
        },
        None => {
            assert(rest =~= number);
            assert(n == number.len());
        },
    }
    assert(rest.take(n) =~= number);
}

/// The labels of two clients are different, whatever their serials: a label
/// tells which client a flow belongs to.
pub proof fn law_labels_tell_clients_apart(
    first: u32,
    first_serial: Option<Seq<char>>,
    second: u32,
    second_serial: Option<Seq<char>>,
)
    requires
        first != second,
    ensures
        client_label(first, first_serial) != client_label(second, second_serial),
{
    label_number(first, first_serial);
    label_number(second, second_serial);
    law_decimal_round_trip(first as nat);
    law_decimal_round_trip(second as nat);
}

/// A connection is asked for exactly for a valid TCP or UDP packet, over IPv4 or
/// IPv6, of a flow that has none, where there is a buffer to write back to; and it
/// is asked for that flow.
pub proof fn law_new_flows_are_asked_for<C: Connection>(
    before: Moment<C>,
    ip_packet: IpPacket,
    after: Moment<C>,
    asked: Option<ConnectionId>,
)
    requires
        fed(before, seq![ip_packet], after, asked),
    ensures
        ({
            let ports = ip_packet.transport_header->0;
            let flow = Flow {
                client_label: before.routes.client_label,
                protocol: ip_packet.ip_header.protocol,
                source: SocketAddr { ip: ip_packet.ip_header.source, port: ports.source_port },
                destination: SocketAddr {
                    ip: ip_packet.ip_header.destination,
                    port: ports.destination_port,
                },
            };
            &&& asked is Some <==> {
                &&& ip_packet.valid
                &&& ip_packet.transport_header is Some
                &&& ip_packet.ip_header.protocol == Protocol::Tcp || ip_packet.ip_header.protocol
                    == Protocol::Udp
                &&& before.routes.has_buffer
                &&& forall|i: int|
                    0 <= i < before.routes.connections.len() ==> (
                    #[trigger] before.routes.connections[i]).flow() != flow
            }
            &&& asked matches Some(id) ==> id@ == flow && after == before
        }),
{
    let packets = seq![ip_packet];
    let (moments, routings) = choose|moments: Seq<Moment<C>>, routings: Seq<Routing>|
        {
            &&& #[trigger] route_through(moments, packets, routings)
            &&& moments.first() == before
            &&& moments.last() == after
            &&& forall|i: int|
                0 <= i < routings.len() - 1 ==> !needs_connection(#[trigger] routings[i])
            &&& match asked {
                Some(id) => routings.len() > 0 && needs_connection(routings.last())
                    && routings.last() == Routing::Create(id),
                None => routings.len() > 0 ==> !needs_connection(routings.last()),
            }
        };
    assert(routings[0] == routings.last());
    assert(moments[1] == after && moments[0] == before);
    assert(packets[0] == ip_packet);
    assert(routed(
        before.routes,
        before.outgoing,
        ip_packet,
        after.routes,
        after.outgoing,
        routings[0],
    ));
    law_routing_is_decided(
        before.routes,
        before.outgoing,
        ip_packet,
        after.routes,
        after.outgoing,
        routings[0],
    );
}

/// The last of the packets that were fed is routed like one that is fed alone,
/// after all the others were routed without a connection being asked for.
pub proof fn law_no_flow_is_overlooked<C: Connection>(
    before: Moment<C>,
    packets: Seq<IpPacket>,
    ip_packet: IpPacket,
    after: Moment<C>,
    asked: Option<ConnectionId>,
)
    requires
        fed(before, packets.push(ip_packet), after, asked),
    ensures
        exists|between: Moment<C>|
            {
                &&& #[trigger] fed(before, packets, between, None)
                &&& fed(between, seq![ip_packet], after, asked)
            },
{
    assert(packets.push(ip_packet) =~= packets + seq![ip_packet]);
    law_feeds_split(before, packets, seq![ip_packet], after, asked);
}

/// A request is for the flow of its packet, and for a connection of the packet's
/// protocol.
pub proof fn law_requests_name_their_flow<C: Connection>(
    routes: Routes<C>,
    ip_packet: IpPacket,
    request: OpenRequest,
)
    requires
        asks_for(routes, ip_packet, request),
    ensures
        ip_packet.valid,
        ip_packet.transport_header is Some,
        request.id@.client_label == routes.client_label,
        request.id@.protocol == ip_packet.ip_header.protocol,
        request.id@.source == (SocketAddr {
            ip: ip_packet.ip_header.source,
            port: ip_packet.transport_header->0.source_port,
        }),
        request.id@.destination == (SocketAddr {
            ip: ip_packet.ip_header.destination,
            port: ip_packet.transport_header->0.destination_port,
        }),
        ip_packet.ip_header.protocol == Protocol::Tcp ==> request.kind == ConnectionKind::Tcp,
        ip_packet.ip_header.protocol == Protocol::Udp ==> request.kind == ConnectionKind::Udp,
        forall|i: int|
            0 <= i < routes.connections.len() ==> (#[trigger] routes.connections[i]).flow()
                != request.id@,
{
}

/// A label is the number of the client after a `#`, followed by the serial in
/// round brackets where it is known.
pub proof fn law_label_in_print(id: u32, serial: Seq<char>)
    ensures
        client_label(id, None) == seq!['#'] + decimal(id as nat),
        client_label(id, Some(serial)) == client_label(id, None) + seq![' ', '('] + serial
            + seq![')'],
{
    reveal_strlit(" (");
    reveal_strlit(")");
    assert(" ("@ =~= seq![' ', '(']);
    assert(")"@ =~= seq![')']);
}

/// A new client is open, knows its number and serial, has room for sixteen packets
/// of the largest size, and has nothing to read, nothing to write and no
/// connection; its flows carry its label.
pub proof fn law_new_clients_are_empty<C: Connection>(id: u32, serial: Option<Seq<char>>)
    ensures
        ({
            let client = new_client::<C>(id, serial);
            &&& client.id == id
            &&& client.serial == serial
            &&& !client.closed
            &&& client.label == client_label(id, serial)
            &&& client.routes.client_label == client_label(id, serial)
            &&& client.routes.client == Some(id)
            &&& client.routes.has_buffer
            &&& client.routes.connections.len() == 0
            &&& client.unread.len() == 0
            &&& client.outgoing.bytes.len() == 0
            &&& client.outgoing.capacity == 16 * 65536
            &&& !client.outgoing.busy
        }),
{
}

/// After a read that brought something every complete packet is routed, and after
/// any other read none.
pub proof fn law_complete_packets_are_routed(packets: Seq<IpPacket>, error: IoError)
    ensures
        packets_to_route(Ok(true), packets) == packets,
        packets_to_route(Ok(false), packets).len() == 0,
        packets_to_route(Err(error), packets).len() == 0,
{
}

/// Every call of a client does to its connections and buffers what it should, and
/// leaves everything else alone.
pub proof fn law_calls_serve_the_device<C: Connection>(
    client: &mut Client<C>,
    data: &[u8],
    raw: Vec<Vec<u8>>,
    feed: &mut DeviceFeed,
    asked: Option<OpenRequest>,
    created: Result<C, IoError>,
    ip_packet: IpPacket,
    r: Result<(), IoError>,
    bytes: Vec<u8>,
    now: u64,
    outcomes: Vec<Result<(), IoError>>,
    gone: Vec<C>,
)
    ensures
        call_ensures(Client::<C>::read_device_data, (client, data), raw) ==> {
            &&& raw_packets(raw@) == packets_in(old(client)@.unread + data@)
            &&& final(client)@ == (ClientState {
                unread: rest_of(old(client)@.unread + data@),
                ..old(client)@
            })
        },
        call_ensures(Client::<C>::feed_device_data, (client, feed), asked) ==> {
            &&& final(feed).packets() == old(feed).packets()
            &&& old(feed).done() <= final(feed).done() <= final(feed).packets().len()
            &&& fed(
                old(client).moment(),
                old(feed).packets().subrange(old(feed).done() as int, final(feed).done() as int),
                final(client).moment(),
                match asked {
                    Some(request) => Some(request.id),
                    None => None,
                },
            )
            &&& asked is None ==> final(feed).done() == final(feed).packets().len()
            &&& asked is Some ==> asked->0.packet + 1 == final(feed).done() && asks_for(
                final(client)@.routes,
                final(feed).packets()[asked->0.packet as int],
                asked->0,
            )
            &&& final(client)@.unread == old(client)@.unread
            &&& final(client)@.closed == old(client)@.closed
        },
        call_ensures(Client::<C>::connection_opened, (client, created, &ip_packet), ()) ==> {
            &&& opened(
                old(client)@.routes,
                old(client)@.outgoing,
                created,
                ip_packet,
                final(client)@.routes,
                final(client)@.outgoing,
            )
            &&& final(client)@.unread == old(client)@.unread
            &&& final(client)@.closed == old(client)@.closed
        },
        call_ensures(Client::<C>::send_to_client, (client, &ip_packet), r) ==> {
            &&& final(client)@ == (ClientState {
                outgoing: old(client)@.outgoing.offered(ip_packet.raw@),
                ..old(client)@
            })
            &&& r is Ok <==> !old(client)@.outgoing.busy && old(client)@.outgoing.bytes.len()
                + ip_packet.raw@.len() <= old(client)@.outgoing.capacity
            &&& r is Err ==> r->Err_0.kind == ErrorKind::WouldBlock
        },
        call_ensures(Client::<C>::drain_outgoing, (client,), bytes) ==> {
            &&& bytes@ == old(client)@.outgoing.given()
            &&& final(client)@ == (ClientState {
                outgoing: old(client)@.outgoing.drained(),
                ..old(client)@
            })
        },
        call_ensures(Client::<C>::close, (client,), gone) ==> {
            &&& final(client)@.closed
            &&& final(client)@.routes.connections.len() == 0
            &&& final(client)@.outgoing == old(client)@.outgoing
            &&& gone@.len() == old(client)@.routes.connections.len()
            &&& forall|i: int| 0 <= i < gone@.len() ==> (#[trigger] gone@[i]).closed()
        },
        call_ensures(Client::<C>::clean_expired_connections, (client, now), gone) ==> {
            &&& final(client)@.routes.connections == active(old(client)@.routes.connections, now)
            &&& final(client)@.closed == old(client)@.closed
            &&& final(client)@.outgoing == old(client)@.outgoing
            &&& gone@.len() + active(old(client)@.routes.connections, now).len()
                == old(client)@.routes.connections.len()
            &&& forall|i: int|
                0 <= i < gone@.len() ==> (#[trigger] gone@[i]).closed() && gone@[i].flow() == idle(
                    old(client)@.routes.connections,
                    now,
                )[i].flow()
        },
        call_ensures(Client::<C>::poll_network_connections, (client, &outcomes), gone) ==> {
            &&& final(client)@.routes.connections == surviving(
                old(client)@.routes.connections,
                outcomes@,
            )
            &&& final(client)@.closed == old(client)@.closed
            &&& final(client)@.outgoing == old(client)@.outgoing
            &&& gone@.len() == leaving(old(client)@.routes.connections, outcomes@).len()
            &&& forall|i: int| 0 <= i < gone@.len() ==> (#[trigger] gone@[i]).closed()
        },
{
    if call_ensures(Client::<C>::clean_expired_connections, (client, now), gone) {
        every_connection_is_kept_or_idle(old(client)@.routes.connections, now);
    }
}

/// What a client hands out of itself to be worked on is its own, and what is done
/// to it is done to the client and to nothing else of it.
pub proof fn law_calls_lend_the_parts<C: Connection>(
    client: &mut Client<C>,
    router: &mut Router<C>,
    channel: &mut ClientChannel,
    i: usize,
    connection: &mut C,
)
    ensures
        call_ensures(Client::<C>::router, (client,), router) ==> {
            &&& old(router)@ == old(client)@.routes
            &&& final(client)@.routes == final(router)@
            &&& final(client)@.outgoing == old(client)@.outgoing
            &&& final(client)@.unread == old(client)@.unread
            &&& final(client)@.closed == old(client)@.closed
            &&& final(client)@.id == old(client)@.id
        },
        call_ensures(Client::<C>::channel, (client,), channel) ==> {
            &&& old(channel)@ == old(client)@.outgoing
            &&& final(client)@.outgoing == final(channel)@
            &&& final(client)@.routes == old(client)@.routes
            &&& final(client)@.unread == old(client)@.unread
            &&& final(client)@.closed == old(client)@.closed
            &&& final(client)@.id == old(client)@.id
        },
        call_ensures(Client::<C>::connection_and_channel, (client, i), (connection, channel)) ==> {
            &&& *old(connection) == old(client)@.routes.connections[i as int]
            &&& old(channel)@ == old(client)@.outgoing
            &&& final(client)@.outgoing == final(channel)@
            &&& final(client)@.routes.connections == old(client)@.routes.connections.update(
                i as int,
                *final(connection),
            )
            &&& final(client)@.unread == old(client)@.unread
            &&& final(client)@.closed == old(client)@.closed
        },
{
}

/// A client is made, labelled and asked about as it should be on every call, and so
/// is a feed.
pub proof fn law_calls_make_a_client<C: Connection>(
    id: u32,
    serial: Option<String>,
    label: String,
    created: Result<Client<C>, IoError>,
    client: Client<C>,
    r: bool,
    read: Result<bool, IoError>,
    packets: Vec<IpPacket>,
    feed: DeviceFeed,
    n: usize,
)
    ensures
        call_ensures(make_label, (id, &serial), label) ==> label@ == client_label(
            id,
            optional_text(serial),
        ),
        call_ensures(Client::<C>::create, (id, serial), created) ==> created is Ok
            && created->Ok_0@ == new_client::<C>(id, optional_text(serial)),
        call_ensures(Client::<C>::id, (&client,), id) ==> id == client@.id,
        call_ensures(Client::<C>::is_closed, (&client,), r) ==> r == client@.closed,
        call_ensures(Client::<C>::has_outgoing, (&client,), r) ==> (r <==> !client@.outgoing.busy
            && client@.outgoing.bytes.len() > 0),
        call_ensures(DeviceFeed::new, (read, packets), feed) ==> feed.done() == 0 && feed.packets()
            == packets_to_route(read, packets@),
        call_ensures(DeviceFeed::count, (&feed,), n) ==> n == feed.done(),
{
}

/// A feed hands out its packets by their place.
pub proof fn law_calls_hand_out_packets(feed: DeviceFeed, i: usize, ip_packet: &IpPacket)
    ensures
        call_ensures(DeviceFeed::packet, (&feed, i), ip_packet) ==> *ip_packet
            == feed.packets()[i as int],
{
}

} // verus!
