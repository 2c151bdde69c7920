//! Routes IP packets from the device to the connections of their flows, and
//! keeps the connections that are active.

use vstd::prelude::*;

use crate::io_error::{ErrorKind, IoError};
use crate::relay::client_channel::{ClientChannel, Outgoing};
use crate::relay::connection::{Connection, ConnectionId, Flow};
use crate::relay::ip_packet::{IpPacket, Protocol};
#[allow(unused_imports)]
use crate::relay::connection::flow_of;
#[allow(unused_imports)]
use crate::relay::net::SocketAddr;

verus! {

/// The connections of one client, at most one for each flow.
pub struct Router<C: Connection> {
    client: Option<u32>,
    has_buffer: bool,
    client_label: String,
    connections: Vec<C>,
}

/// What a router holds.
pub struct Routes<C> {
    /// The client that the router works for.
    pub client: Option<u32>,
    /// Whether the buffer that new connections write to was registered.
    pub has_buffer: bool,
    /// Part of the identity of every flow of this client.
    pub client_label: Seq<char>,
    pub connections: Seq<C>,
}

impl<C: Connection> View for Router<C> {
    type V = Routes<C>;

    closed spec fn view(&self) -> Routes<C> {
        Routes {
            client: self.client,
            has_buffer: self.has_buffer,
            client_label: self.client_label@,
            connections: self.connections@,
        }
    }
}

/// What became of a packet, or what is left to do with it.
pub enum Routing {
    /// The packet cannot be routed, and was dropped.
    Invalid,
    /// The packet has no transport header that is understood, and was dropped.
    NoTransportHeader,
    /// There is no buffer for a new connection, and the packet was dropped.
    NoBuffer,
    /// The connection of the flow took the packet.
    Sent,
    /// The connection of the flow took the packet and was then closed, so it
    /// was removed.
    SentAndRemoved,
    /// The flow has no connection yet: one is to be created.
    Create(ConnectionId),
}

/// The kinds of connections that can be opened.
#[derive(Clone, Copy, Debug, PartialEq, Eq, Structural)]
pub enum ConnectionKind {
    Tcp,
    Udp,
}

/// Whether every connection is in order, and no two serve the same flow.
pub open spec fn distinct<C: Connection>(connections: Seq<C>) -> bool {
    &&& forall|i: int| 0 <= i < connections.len() ==> (#[trigger] connections[i]).wf()
    &&& forall|i: int, j: int|
        0 <= i < j < connections.len() ==> (#[trigger] connections[i]).flow() != (
        #[trigger] connections[j]).flow()
}

/// Whether some connection serves the flow.
pub open spec fn serves<C: Connection>(connections: Seq<C>, flow: Flow) -> bool {
    exists|i: int| 0 <= i < connections.len() && (#[trigger] connections[i]).flow() == flow
}

/// Picks the connections that do not serve the flow.
pub open spec fn not_serving<C: Connection>(flow: Flow) -> spec_fn(C) -> bool {
    |c: C| c.flow() != flow
}

/// The flow that a packet with a transport header belongs to.
pub open spec fn packet_flow(ip_packet: IpPacket, client_label: Seq<char>) -> Flow {
    flow_of(ip_packet.ip_header, ip_packet.transport_header->0, client_label)
}

/// Whether a connection stays after it was polled: it does unless it is closed,
/// or the poll failed for good.
pub open spec fn survives<C: Connection>(connection: C, outcome: Result<(), IoError>) -> bool {
    match outcome {
        Ok(_) => !connection.closed(),
        Err(e) => e.kind == ErrorKind::WouldBlock && !connection.closed(),
    }
}

/// The connections that are not idle for too long at `now`.
pub open spec fn active<C: Connection>(connections: Seq<C>, now: u64) -> Seq<C> {
    connections.filter(|c: C| !c.expired(now))
}

/// The connections that have been idle for too long at `now`.
pub open spec fn idle<C: Connection>(connections: Seq<C>, now: u64) -> Seq<C> {
    connections.filter(|c: C| c.expired(now))
}

/// The connections that are left when the one of a flow is removed.
pub open spec fn without_flow<C: Connection>(connections: Seq<C>, flow: Flow) -> Seq<C> {
    connections.filter(not_serving(flow))
}

/// What is opened for a flow whose first packet is this one.
pub open spec fn creates(
    flow: Flow,
    ip_packet: IpPacket,
    r: Result<ConnectionKind, IoError>,
) -> bool {
    match r {
        Ok(kind) => {
            &&& ip_packet.transport_header is Some
            &&& kind == ConnectionKind::Tcp <==> flow.protocol == Protocol::Tcp
            &&& kind == ConnectionKind::Udp <==> flow.protocol == Protocol::Udp
        },
        Err(e) => if ip_packet.transport_header is None {
            e.says(ErrorKind::Other, "No transport header"@)
        } else {
            &&& flow.protocol == Protocol::Other
            &&& e.says(ErrorKind::Other, "Unsupported protocol: Other"@)
        },
    }
}

/// The connections that stay after each was polled with its outcome.
pub open spec fn surviving<C: Connection>(
    connections: Seq<C>,
    outcomes: Seq<Result<(), IoError>>,
) -> Seq<C>
    decreases connections.len(),
{
    if connections.len() == 0 {
        Seq::empty()
    } else {
        let front = surviving(connections.drop_last(), outcomes);
        let last = connections.len() - 1;
        if survives(connections[last], outcomes[last]) {
            front.push(connections[last])
        } else {
            front
        }
    }
}

/// The positions of the connections that do not stay.
pub open spec fn leaving<C: Connection>(
    connections: Seq<C>,
    outcomes: Seq<Result<(), IoError>>,
) -> Seq<int>
    decreases connections.len(),
{
    if connections.len() == 0 {
        Seq::empty()
    } else {
        let front = leaving(connections.drop_last(), outcomes);
        let last = connections.len() - 1;
        if survives(connections[last], outcomes[last]) {
            front
        } else {
            front.push(last)
        }
    }
}

/// Whether a connection was closed, and serves the same flow as before.
pub open spec fn closed_down<C: Connection>(before: C, after: C) -> bool {
    &&& C::closes(before, after)
    &&& after.closed()
    &&& after.flow() == before.flow()
}

/// How a connection leaves after a poll: closed now where the poll failed, and
/// as it is where it was closed already.
pub open spec fn leaves<C: Connection>(before: C, outcome: Result<(), IoError>, after: C) -> bool {
    if outcome matches Err(e) && e.kind != ErrorKind::WouldBlock {
        closed_down(before, after)
    } else {
        after == before && after.closed()
    }
}

/// A selection of distinct connections is distinct, and holds none that were
/// not there.
proof fn filter_keeps_distinct<C: Connection>(connections: Seq<C>, keep: spec_fn(C) -> bool)
    requires
        distinct(connections),
    ensures
        distinct(connections.filter(keep)),
        forall|i: int|
            0 <= i < connections.filter(keep).len() ==> connections.contains(
                #[trigger] connections.filter(keep)[i],
            ),
    decreases connections.len(),
{
    reveal_with_fuel(Seq::filter, 2);
    if connections.len() > 0 {
        let front = connections.drop_last();
        filter_keeps_distinct(front, keep);
        let kept = front.filter(keep);
        assert forall|i: int| 0 <= i < kept.len() implies connections.contains(#[trigger] kept[i])
            && kept[i].flow() != connections.last().flow() by {
            let k = choose|k: int| 0 <= k < front.len() && front[k] == kept[i];
            assert(connections[k] == kept[i]);
            assert(connections[k].flow() != connections[connections.len() - 1].flow());
        }
        assert(connections[connections.len() - 1] == connections.last());
    }
}

proof fn surviving_keeps_distinct<C: Connection>(
    connections: Seq<C>,
    outcomes: Seq<Result<(), IoError>>,
)
    requires
        distinct(connections),
    ensures
        distinct(surviving(connections, outcomes)),
        forall|i: int|
            0 <= i < surviving(connections, outcomes).len() ==> connections.contains(
                #[trigger] surviving(connections, outcomes)[i],
            ),
    decreases connections.len(),
{
    if connections.len() > 0 {
        let front = connections.drop_last();
        surviving_keeps_distinct(front, outcomes);
        let kept = surviving(front, outcomes);
        assert forall|i: int| 0 <= i < kept.len() implies connections.contains(#[trigger] kept[i])
            && kept[i].flow() != connections.last().flow() by {
            let k = choose|k: int| 0 <= k < front.len() && front[k] == kept[i];
            assert(connections[k] == kept[i]);
            assert(connections[k].flow() != connections[connections.len() - 1].flow());
        }
        assert(connections[connections.len() - 1] == connections.last());
    }
}

impl<C: Connection> Router<C> {
    /// Every connection is in order, and no two serve the same flow.
    pub open spec fn wf(&self) -> bool {
        distinct(self@.connections)
    }

    /// A router without connections, for no client yet.
    pub fn new() -> (router: Router<C>)
        ensures
            router.wf(),
            router@ == (Routes {
                client: None,
                has_buffer: false,
                client_label: Seq::empty(),
                connections: Seq::<C>::empty(),
            }),
    {
        Router {
            client: None,
            has_buffer: false,
            client_label: String::new(),
            connections: Vec::new(),
        }
    }

    /// Sets the client that the router works for.
    pub fn set_client(&mut self, client: u32)
        ensures
            final(self)@ == (Routes { client: Some(client), ..old(self)@ }),
    {
        self.client = Some(client);
    }

    /// Sets the label that is part of the identity of every flow. To be called
    /// before any connection is created.
    pub fn set_client_label(&mut self, label: &str)
        ensures
            final(self)@ == (Routes { client_label: label@, ..old(self)@ }),
    {
        self.client_label = label.to_string();
    }

    /// Registers the outgoing buffer. To be called before any connection is
    /// created.
    pub fn set_buffer(&mut self)
        ensures
            final(self)@ == (Routes { has_buffer: true, ..old(self)@ }),
    {
        self.has_buffer = true;
    }

    /// The number of connections.
    pub fn len(&self) -> (n: usize)
        ensures
            n == self@.connections.len(),
    {
        self.connections.len()
    }

    /// The connection at a position, to work on.
    pub fn connection(&mut self, i: usize) -> (connection: &mut C)
        requires
            i < old(self)@.connections.len(),
        ensures
            *connection == old(self)@.connections[i as int],
            final(self)@ == (Routes {
                connections: old(self)@.connections.update(i as int, *final(connection)),
                ..old(self)@
            }),
    {
        &mut self.connections[i]
    }

    /// The position of the connection that serves the flow.
    pub fn find(&self, id: &ConnectionId) -> (r: Option<usize>)
        requires
            self.wf(),
        ensures
            match r {
                Some(i) => i < self@.connections.len() && self@.connections[i as int].flow() == id@,
                None => !serves(self@.connections, id@),
            },
    {
        let mut i: usize = 0;
        while i < self.connections.len()
            invariant
                self.wf(),
                i <= self@.connections.len(),
                forall|j: int| 0 <= j < i ==> (#[trigger] self@.connections[j]).flow() != id@,
            decreases self@.connections.len() - i,
        {
            assert(self@.connections[i as int].wf());
            if *self.connections[i].id() == *id {
                return Some(i);
            }
            i = i + 1;
        }
        None
    }

    /// Routes an IP packet from the device to the connection of its flow.
    ///
    /// Where the flow has no connection, one is asked for.
    pub fn send_to_network(
        &mut self,
        client_channel: &mut ClientChannel,
        ip_packet: &IpPacket,
    ) -> (routing: Routing)
        requires
            old(self).wf(),
            old(client_channel).wf(),
        ensures
            final(self).wf(),
            final(client_channel).wf(),
            routed(
                old(self)@,
                old(client_channel)@,
                *ip_packet,
                final(self)@,
                final(client_channel)@,
                routing,
            ),
    {
        if !ip_packet.valid {
            return Routing::Invalid;
        }
        let id = match &ip_packet.transport_header {
            Some(transport_header) => ConnectionId::from_headers(
                &ip_packet.ip_header,
                transport_header,
                self.client_label.as_str(),
            ),
            None => {
                return Routing::NoTransportHeader;
            },
        };
        match self.find(&id) {
            Some(i) => {
                let ghost before = self@.connections[i as int];
                let connection = &mut self.connections[i];
                connection.send_to_network(client_channel, ip_packet);
                let closed = connection.is_closed();
                let ghost after = self@.connections[i as int];
                assert(self@.connections =~= old(self)@.connections.update(i as int, after));
                assert(C::sends(
                    before,
                    old(client_channel)@,
                    *ip_packet,
                    after,
                    client_channel@,
                ));
                if closed {
                    let _ = self.connections.remove(i);
                    assert(self@.connections =~= old(self)@.connections.remove(i as int));
                    Routing::SentAndRemoved
                } else {
                    Routing::Sent
                }
            },
            None => {
                if !self.has_buffer {
                    return Routing::NoBuffer;
                }
                Routing::Create(id)
            },
        }
    }

    /// What to open for a flow, going by its protocol and its first packet.
    pub fn create_connection(id: &ConnectionId, ip_packet: &IpPacket) -> (r: Result<
        ConnectionKind,
        IoError,
    >)
        ensures
            creates(id@, *ip_packet, r),
    {
        if ip_packet.transport_header.is_none() {
            return Err(IoError::other("No transport header"));
        }
        match id.protocol() {
            Protocol::Tcp => Ok(ConnectionKind::Tcp),
            Protocol::Udp => Ok(ConnectionKind::Udp),
            Protocol::Other => Err(IoError::other("Unsupported protocol: Other")),
        }
    }

    /// Routes the packet that began a flow to the connection that was created
    /// for it, and adds the connection. Where none could be created, the packet
    /// is dropped and the router stays as it is.
    pub fn open(
        &mut self,
        created: Result<C, IoError>,
        client_channel: &mut ClientChannel,
        ip_packet: &IpPacket,
    )
        requires
            old(self).wf(),
            old(client_channel).wf(),
            opens(old(self)@, created, *ip_packet),
        ensures
            final(self).wf(),
            final(client_channel).wf(),
            opened(
                old(self)@,
                old(client_channel)@,
                created,
                *ip_packet,
                final(self)@,
                final(client_channel)@,
            ),
    {
        match created {
            Ok(connection) => {
                let mut connection = connection;
                connection.send_to_network(client_channel, ip_packet);
                let ghost after = connection;
                if !connection.is_closed() {
                    self.connections.push(connection);
                }
                assert(self@.connections =~= if after.closed() {
                    old(self)@.connections
                } else {
                    old(self)@.connections.push(after)
                });
                assert(C::sends(
                    created->Ok_0,
                    old(client_channel)@,
                    *ip_packet,
                    after,
                    client_channel@,
                ));
            },
            Err(_) => {},
        }
    }

    /// Removes the connection of a flow, if there is one.
    pub fn remove(&mut self, id: &ConnectionId)
        requires
            old(self).wf(),
        ensures
            final(self).wf(),
            final(self)@ == (Routes {
                connections: without_flow(old(self)@.connections, id@),
                ..old(self)@
            }),
    {
        let ghost all = self@.connections;
        proof {
            filter_keeps_distinct(all, not_serving(id@));
        }
        match self.find(id) {
            Some(i) => {
                let _ = self.connections.remove(i);
                proof {
                    filter_out_one(all, i as int);
                }
            },
            None => {
                proof {
                    filter_out_none(all, id@);
                }
            },
        }
    }

    /// Closes every connection and forgets it. The closed connections are
    /// handed out, to be let go of.
    pub fn clear(&mut self) -> (closed: Vec<C>)
        requires
            old(self).wf(),
        ensures
            final(self).wf(),
            final(self)@ == (Routes { connections: Seq::<C>::empty(), ..old(self)@ }),
            closed@.len() == old(self)@.connections.len(),
            forall|i: int|
                0 <= i < closed@.len() ==> closed_down(
                    old(self)@.connections[i],
                    #[trigger] closed@[i],
                ),
    {
        let ghost all = self@.connections;
        let mut closed: Vec<C> = Vec::new();
        assert(all.skip(0) =~= all);
        while self.connections.len() > 0
            invariant
                distinct(all),
                closed@.len() <= all.len(),
                self@ == (Routes { connections: all.skip(closed@.len() as int), ..old(self)@ }),
                forall|i: int|
                    0 <= i < closed@.len() ==> closed_down(all[i], #[trigger] closed@[i]),
            decreases self@.connections.len(),
        {
            let ghost n = closed@.len() as int;
            let mut connection = self.connections.remove(0);
            assert(connection == all[n]);
            connection.close();
            closed.push(connection);
            assert(self@.connections =~= all.skip(n + 1));
        }
        assert(self@.connections =~= Seq::<C>::empty());
        closed
    }

    /// Closes and removes the connections that have been idle for too long. The
    /// closed connections are handed out, to be let go of.
    pub fn clean_expired_connections(&mut self, now: u64) -> (closed: Vec<C>)
        requires
            old(self).wf(),
        ensures
            final(self).wf(),
            final(self)@ == (Routes {
                connections: active(old(self)@.connections, now),
                ..old(self)@
            }),
            closed@.len() == idle(old(self)@.connections, now).len(),
            forall|i: int|
                0 <= i < closed@.len() ==> closed_down(
                    idle(old(self)@.connections, now)[i],
                    #[trigger] closed@[i],
                ),
    {
        let ghost all = self@.connections;
        let ghost keep = |c: C| !c.expired(now);
        let ghost drop = |c: C| c.expired(now);
        let mut closed: Vec<C> = Vec::new();
        let n: usize = self.connections.len();
        let mut seen: usize = 0;
        let mut i: usize = 0;
        proof {
            filter_keeps_distinct(all, keep);
        }
        assert(self@.connections =~= all.take(0).filter(keep) + all.skip(0));
        while i < self.connections.len()
            invariant
                distinct(all),
                keep == (|c: C| !c.expired(now)),
                drop == (|c: C| c.expired(now)),
                seen <= n == all.len(),
                i == all.take(seen as int).filter(keep).len(),
                self@ == (Routes {
                    connections: all.take(seen as int).filter(keep) + all.skip(seen as int),
                    ..old(self)@
                }),
                closed@.len() == all.take(seen as int).filter(drop).len(),
                forall|j: int|
                    0 <= j < closed@.len() ==> closed_down(
                        all.take(seen as int).filter(drop)[j],
                        #[trigger] closed@[j],
                    ),
            decreases all.len() - seen,
        {
            let ghost kept = all.take(seen as int).filter(keep);
            let ghost dropped = all.take(seen as int).filter(drop);
            assert(self@.connections[i as int] == all[seen as int]);
            assert(all.take(seen + 1).drop_last() =~= all.take(seen as int));
            assert(all.take(seen + 1).last() == all[seen as int]);
            reveal_with_fuel(Seq::filter, 2);
            if self.connections[i].is_expired(now) {
                let mut connection = self.connections.remove(i);
                assert(self@.connections =~= kept + all.skip(seen + 1));
                connection.close();
                closed.push(connection);
                assert(all.take(seen + 1).filter(drop) == dropped.push(all[seen as int]));
            } else {
                assert(self@.connections =~= kept.push(all[seen as int]) + all.skip(seen + 1));
                i = i + 1;
            }
            seen = seen + 1;
        }
        assert(seen == all.len());
        assert(all.take(seen as int) =~= all);
        assert(self@.connections =~= all.filter(keep));
        closed
    }

    /// Goes through the outcomes of polling every connection, and removes the
    /// connections that are closed. One whose poll failed for good is closed
    /// first. The removed connections are handed out, to be let go of.
    pub fn poll_connections(&mut self, outcomes: &Vec<Result<(), IoError>>) -> (removed: Vec<C>)
        requires
            old(self).wf(),
            outcomes@.len() == old(self)@.connections.len(),
        ensures
            final(self).wf(),
            final(self)@ == (Routes {
                connections: surviving(old(self)@.connections, outcomes@),
                ..old(self)@
            }),
            removed@.len() == leaving(old(self)@.connections, outcomes@).len(),
            forall|i: int|
                0 <= i < removed@.len() ==> {
                    let k = leaving(old(self)@.connections, outcomes@)[i];
                    leaves(old(self)@.connections[k], outcomes@[k], #[trigger] removed@[i])
                },
    {
        let ghost all = self@.connections;
        let mut removed: Vec<C> = Vec::new();
        let n: usize = self.connections.len();
        let mut seen: usize = 0;
        let mut i: usize = 0;
        proof {
            surviving_keeps_distinct(all, outcomes@);
        }
        assert(self@.connections =~= surviving(all.take(0), outcomes@) + all.skip(0));
        while i < self.connections.len()
            invariant
                distinct(all),
                outcomes@.len() == all.len(),
                seen <= n == all.len(),
                i == surviving(all.take(seen as int), outcomes@).len(),
                self@ == (Routes {
                    connections: surviving(all.take(seen as int), outcomes@) + all.skip(
                        seen as int,
                    ),
                    ..old(self)@
                }),
                removed@.len() == leaving(all.take(seen as int), outcomes@).len(),
                forall|j: int|
                    0 <= j < removed@.len() ==> {
                        let k = leaving(all.take(seen as int), outcomes@)[j];
                        leaves(all[k], outcomes@[k], #[trigger] removed@[j])
                    },
            decreases all.len() - seen,
        {
            let ghost kept = surviving(all.take(seen as int), outcomes@);
            let ghost left = leaving(all.take(seen as int), outcomes@);
            assert(self@.connections[i as int] == all[seen as int]);
            assert(all.take(seen + 1).drop_last() =~= all.take(seen as int));
            assert(all.take(seen + 1)[seen as int] == all[seen as int]);
            let failed = match &outcomes[seen] {
                Ok(_) => false,
                Err(e) => e.kind != ErrorKind::WouldBlock,
            };
            let stays = !failed && !self.connections[i].is_closed();
            assert(stays == survives(all[seen as int], outcomes@[seen as int]));
            if stays {
                assert(self@.connections =~= kept.push(all[seen as int]) + all.skip(seen + 1));
                i = i + 1;
            } else {
                let mut connection = self.connections.remove(i);
                assert(self@.connections =~= kept + all.skip(seen + 1));
                if failed {
                    connection.close();
                }
                removed.push(connection);
                assert(leaving(all.take(seen + 1), outcomes@) == left.push(seen as int));
            }
            seen = seen + 1;
        }
        assert(seen == all.len());
        assert(all.take(seen as int) =~= all);
        assert(self@.connections =~= surviving(all, outcomes@));
        removed
    }
}

proof fn filter_out_none<C: Connection>(connections: Seq<C>, flow: Flow)
    requires
        !serves(connections, flow),
    ensures
        connections.filter(not_serving(flow)) == connections,
    decreases connections.len(),
{
    reveal_with_fuel(Seq::filter, 2);
    if connections.len() > 0 {
        let front = connections.drop_last();
        assert forall|i: int| 0 <= i < front.len() implies (#[trigger] front[i]).flow() != flow by {
            assert(connections[i] == front[i]);
        }
        filter_out_none(front, flow);
        assert(connections[connections.len() - 1].flow() != flow);
        assert(front.push(connections.last()) =~= connections);
    }
}

proof fn filter_out_one<C: Connection>(connections: Seq<C>, i: int)
    requires
        distinct(connections),
        0 <= i < connections.len(),
    ensures
        connections.filter(not_serving(connections[i].flow())) == connections.remove(i),
    decreases connections.len(),
{
    let flow = connections[i].flow();
    reveal_with_fuel(Seq::filter, 2);
    let front = connections.drop_last();
    let last = connections.len() - 1;
    if i == last {
        assert forall|j: int| 0 <= j < front.len() implies (#[trigger] front[j]).flow() != flow by {
            assert(connections[j] == front[j]);
            assert(connections[j].flow() != connections[last].flow());
        }
        filter_out_none(front, flow);
        assert(connections.remove(i) =~= front);
    } else {
        assert(distinct(front));
        filter_out_one(front, i);
        assert(connections[i].flow() != connections[last].flow());
        assert(connections.remove(i) =~= front.remove(i).push(connections[last]));
    }
}

/// What routing a packet does to the router and to the channel back to the
/// device.
pub open spec fn routed<C: Connection>(
    before: Routes<C>,
    channel_before: Outgoing,
    ip_packet: IpPacket,
    after: Routes<C>,
    channel_after: Outgoing,
    routing: Routing,
) -> bool {
    let flow = packet_flow(ip_packet, before.client_label);
    let served = serves(before.connections, flow);
    let unchanged = after == before && channel_after == channel_before;
    match routing {
        Routing::Invalid => !ip_packet.valid && unchanged,
        Routing::NoTransportHeader => {
            &&& ip_packet.valid
            &&& ip_packet.transport_header is None
            &&& unchanged
        },
        Routing::NoBuffer => {
            &&& ip_packet.valid
            &&& ip_packet.transport_header is Some
            &&& !served
            &&& !before.has_buffer
            &&& unchanged
        },
        Routing::Create(id) => {
            &&& ip_packet.valid
            &&& ip_packet.transport_header is Some
            &&& !served
            &&& before.has_buffer
            &&& id.wf()
            &&& id@ == flow
            &&& unchanged
        },
        Routing::Sent => {
            &&& ip_packet.valid
            &&& ip_packet.transport_header is Some
            &&& exists|i: int, connection: C|
                {
                    &&& 0 <= i < before.connections.len()
                    &&& before.connections[i].flow() == flow
                    &&& #[trigger] C::sends(
                        before.connections[i],
                        channel_before,
                        ip_packet,
                        connection,
                        channel_after,
                    )
                    &&& !connection.closed()
                    &&& after == (Routes {
                        connections: before.connections.update(i, connection),
                        ..before
                    })
                }
        },
        Routing::SentAndRemoved => {
            &&& ip_packet.valid
            &&& ip_packet.transport_header is Some
            &&& exists|i: int, connection: C|
                {
                    &&& 0 <= i < before.connections.len()
                    &&& before.connections[i].flow() == flow
                    &&& #[trigger] C::sends(
                        before.connections[i],
                        channel_before,
                        ip_packet,
                        connection,
                        channel_after,
                    )
                    &&& connection.closed()
                    &&& after == (Routes { connections: before.connections.remove(i), ..before })
                }
        },
    }
}

/// Whether the created connection, if there is one, is for the flow that the
/// packet began, which has none yet.
pub open spec fn opens<C: Connection>(
    before: Routes<C>,
    created: Result<C, IoError>,
    ip_packet: IpPacket,
) -> bool {
    &&& ip_packet.valid
    &&& ip_packet.transport_header is Some
    &&& created matches Ok(connection) ==> {
        &&& connection.wf()
        &&& connection.flow() == packet_flow(ip_packet, before.client_label)
        &&& !serves(before.connections, connection.flow())
    }
}

/// What creating a connection for a packet does to the router and to the
/// channel back to the device: the new connection is given the packet, and is
/// kept unless that closed it.
pub open spec fn opened<C: Connection>(
    before: Routes<C>,
    channel_before: Outgoing,
    created: Result<C, IoError>,
    ip_packet: IpPacket,
    after: Routes<C>,
    channel_after: Outgoing,
) -> bool {
    match created {
        Ok(connection) => exists|used: C|
            {
                &&& #[trigger] C::sends(
                    connection,
                    channel_before,
                    ip_packet,
                    used,
                    channel_after,
                )
                &&& used.flow() == connection.flow()
                &&& after == (Routes {
                    connections: if used.closed() {
                        before.connections
                    } else {
                        before.connections.push(used)
                    },
                    ..before
                })
            },
        Err(_) => after == before && channel_after == channel_before,
    }
}

/// Routing a packet leaves the connections of all other flows as they are.
pub proof fn law_other_flows_are_untouched<C: Connection>(
    before: Routes<C>,
    channel_before: Outgoing,
    ip_packet: IpPacket,
    after: Routes<C>,
    channel_after: Outgoing,
    routing: Routing,
    k: int,
)
    requires
        distinct(before.connections),
        routed(before, channel_before, ip_packet, after, channel_after, routing),
        0 <= k < before.connections.len(),
        before.connections[k].flow() != packet_flow(ip_packet, before.client_label),
    ensures
        after.connections.contains(before.connections[k]),
{
    let kept = before.connections[k];
    let flow = packet_flow(ip_packet, before.client_label);
    match routing {
        Routing::Sent => {
            let (i, connection) = choose|i: int, connection: C|
                {
                    &&& 0 <= i < before.connections.len()
                    &&& before.connections[i].flow() == flow
                    &&& #[trigger] C::sends(
                        before.connections[i],
                        channel_before,
                        ip_packet,
                        connection,
                        channel_after,
                    )
                    &&& !connection.closed()
                    &&& after == (Routes {
                        connections: before.connections.update(i, connection),
                        ..before
                    })
                };
            assert(after.connections[k] == kept);
        },
        Routing::SentAndRemoved => {
            let (i, connection) = choose|i: int, connection: C|
                {
                    &&& 0 <= i < before.connections.len()
                    &&& before.connections[i].flow() == flow
                    &&& #[trigger] C::sends(
                        before.connections[i],
                        channel_before,
                        ip_packet,
                        connection,
                        channel_after,
                    )
                    &&& connection.closed()
                    &&& after == (Routes { connections: before.connections.remove(i), ..before })
                };
            if k < i {
                assert(after.connections[k] == kept);
            } else {
                assert(after.connections[k - 1] == kept);
            }
        },
        _ => {
            assert(after.connections[k] == kept);
        },
    }
}

/// A packet that is invalid, has no transport header, or belongs to a flow
/// without a connection changes nothing before a connection is created for it.
pub proof fn law_unserved_packets_change_nothing<C: Connection>(
    before: Routes<C>,
    channel_before: Outgoing,
    ip_packet: IpPacket,
    after: Routes<C>,
    channel_after: Outgoing,
    routing: Routing,
)
    requires
        routed(before, channel_before, ip_packet, after, channel_after, routing),
        !ip_packet.valid || ip_packet.transport_header is None || !serves(
            before.connections,
            packet_flow(ip_packet, before.client_label),
        ),
    ensures
        after == before,
        channel_after == channel_before,
{
}

/// Once a connection was created for a flow and kept, the flow's packets go to
/// it, and no second one is asked for.
pub proof fn law_one_connection_for_a_flow<C: Connection>(
    before: Routes<C>,
    channel_before: Outgoing,
    created: C,
    first: IpPacket,
    open: Routes<C>,
    channel_open: Outgoing,
    second: IpPacket,
    after: Routes<C>,
    channel_after: Outgoing,
    routing: Routing,
)
    requires
        opens(before, Ok(created), first),
        opened(before, channel_before, Ok(created), first, open, channel_open),
        open.connections.len() > before.connections.len(),
        second.valid,
        second.transport_header is Some,
        packet_flow(second, before.client_label) == packet_flow(first, before.client_label),
        routed(open, channel_open, second, after, channel_after, routing),
    ensures
        routing is Sent || routing is SentAndRemoved,
{
    let last = open.connections.len() - 1;
    assert(open.connections[last].flow() == created.flow());
    assert(serves(open.connections, created.flow()));
}

/// The packet that begins a flow is given to the connection that was created for
/// it, once, and all the other connections stay as they are.
pub proof fn law_first_packet_is_sent<C: Connection>(
    before: Routes<C>,
    channel_before: Outgoing,
    created: C,
    first: IpPacket,
    after: Routes<C>,
    channel_after: Outgoing,
)
    requires
        opens(before, Ok(created), first),
        opened(before, channel_before, Ok(created), first, after, channel_after),
    ensures
        exists|used: C|
            {
                &&& #[trigger] C::sends(created, channel_before, first, used, channel_after)
                &&& !used.closed() ==> after.connections == before.connections.push(used)
                &&& used.closed() ==> after.connections == before.connections
            },
{
}

/// After a poll no closed connection is left.
pub proof fn law_no_closed_connection_is_left<C: Connection>(
    connections: Seq<C>,
    outcomes: Seq<Result<(), IoError>>,
    i: int,
)
    requires
        0 <= i < surviving(connections, outcomes).len(),
    ensures
        !surviving(connections, outcomes)[i].closed(),
    decreases connections.len(),
{
    if connections.len() > 0 {
        let front = surviving(connections.drop_last(), outcomes);
        if i < front.len() {
            law_no_closed_connection_is_left(connections.drop_last(), outcomes, i);
            assert(surviving(connections, outcomes)[i] == front[i]);
        }
    }
}

/// A poll removes the connections that are closed or whose poll failed for good,
/// and no others.
pub proof fn law_poll_removes_exactly_the_closed<C: Connection>(
    connections: Seq<C>,
    outcomes: Seq<Result<(), IoError>>,
    k: int,
)
    requires
        distinct(connections),
        0 <= k < connections.len(),
    ensures
        survives(connections[k], outcomes[k]) ==> surviving(connections, outcomes).contains(
            connections[k],
        ),
        !survives(connections[k], outcomes[k]) ==> !serves(
            surviving(connections, outcomes),
            connections[k].flow(),
        ),
    decreases connections.len(),
{
    let front = connections.drop_last();
    let last = connections.len() - 1;
    let kept = surviving(front, outcomes);
    let all = surviving(connections, outcomes);
    surviving_keeps_distinct(front, outcomes);
    if k < last {
        assert(distinct(front));
        law_poll_removes_exactly_the_closed(front, outcomes, k);
        assert(front[k] == connections[k]);
        if survives(connections[k], outcomes[k]) {
            let j = choose|j: int| 0 <= j < kept.len() && kept[j] == connections[k];
            assert(all[j] == connections[k]);
        } else {
            assert(connections[k].flow() != connections[last].flow());
            assert forall|j: int| 0 <= j < all.len() implies (#[trigger] all[j]).flow()
                != connections[k].flow() by {
                if j < kept.len() {
                    assert(all[j] == kept[j]);
                }
            }
        }
    } else if survives(connections[k], outcomes[k]) {
        assert(all[all.len() - 1] == connections[k]);
    } else {
        assert forall|j: int| 0 <= j < all.len() implies (#[trigger] all[j]).flow()
            != connections[k].flow() by {
            assert(all[j] == kept[j]);
            let m = choose|m: int| 0 <= m < front.len() && front[m] == kept[j];
            assert(connections[m] == kept[j]);
            assert(connections[m].flow() != connections[last].flow());
        }
    }
}

/// After a clean-up no connection is left that was idle for too long, and every
/// other one is still there.
pub proof fn law_clean_up_removes_exactly_the_idle<C: Connection>(
    connections: Seq<C>,
    now: u64,
    k: int,
)
    requires
        0 <= k < connections.len(),
    ensures
        !connections[k].expired(now) ==> active(connections, now).contains(connections[k]),
        !connections[k].expired(now) ==> !idle(connections, now).contains(connections[k]),
        connections[k].expired(now) ==> !active(connections, now).contains(connections[k]),
        connections[k].expired(now) ==> idle(connections, now).contains(connections[k]),
{
    let keep = |c: C| !c.expired(now);
    let drop = |c: C| c.expired(now);
    if drop(connections[k]) {
        connections.lemma_filter_contains(drop, k);
    } else if connections.filter(drop).contains(connections[k]) {
        let dropped = connections.filter(drop);
        let j = choose|j: int| 0 <= j < dropped.len() && dropped[j] == connections[k];
        connections.lemma_filter_pred(drop, j);
    }
    if keep(connections[k]) {
        connections.lemma_filter_contains(keep, k);
    } else if connections.filter(keep).contains(connections[k]) {
        let kept = connections.filter(keep);
        let j = choose|j: int| 0 <= j < kept.len() && kept[j] == connections[k];
        connections.lemma_filter_pred(keep, j);
    }
}

/// What becomes of a packet depends on the packet and on whether its flow has a
/// connection, and on nothing else: neither the protocol nor the address family
/// keeps a packet from its connection, or a flow from getting one.
pub proof fn law_routing_is_decided<C: Connection>(
    before: Routes<C>,
    channel_before: Outgoing,
    ip_packet: IpPacket,
    after: Routes<C>,
    channel_after: Outgoing,
    routing: Routing,
)
    requires
        routed(before, channel_before, ip_packet, after, channel_after, routing),
    ensures
        ({
            let header = ip_packet.transport_header->0;
            let flow = Flow {
                client_label: before.client_label,
                protocol: ip_packet.ip_header.protocol,
                source: SocketAddr { ip: ip_packet.ip_header.source, port: header.source_port },
                destination: SocketAddr {
                    ip: ip_packet.ip_header.destination,
                    port: header.destination_port,
                },
            };
            let has_connection = exists|i: int|
                0 <= i < before.connections.len() && (#[trigger] before.connections[i]).flow()
                    == flow;
            if !ip_packet.valid {
                routing is Invalid
            } else if ip_packet.transport_header is None {
                routing is NoTransportHeader
            } else if has_connection {
                routing is Sent || routing is SentAndRemoved
            } else if before.has_buffer {
                routing matches Routing::Create(id) && id@ == flow
            } else {
                routing is NoBuffer
            }
        }),
{
}

/// A packet of a flow with a connection is given to that connection, with the
/// channel back to the device; the connection leaves exactly where it is closed
/// after that, and every other connection stays as and where it was.
pub proof fn law_packet_reaches_its_connection<C: Connection>(
    before: Routes<C>,
    channel_before: Outgoing,
    ip_packet: IpPacket,
    after: Routes<C>,
    channel_after: Outgoing,
    routing: Routing,
    k: int,
)
    requires
        distinct(before.connections),
        routed(before, channel_before, ip_packet, after, channel_after, routing),
        ip_packet.valid,
        ip_packet.transport_header is Some,
        0 <= k < before.connections.len(),
        before.connections[k].flow() == flow_of(
            ip_packet.ip_header,
            ip_packet.transport_header->0,
            before.client_label,
        ),
    ensures
        exists|used: C|
            {
                &&& #[trigger] C::sends(
                    before.connections[k],
                    channel_before,
                    ip_packet,
                    used,
                    channel_after,
                )
                &&& used.closed() ==> routing is SentAndRemoved && after.connections
                    == before.connections.remove(k)
                &&& !used.closed() ==> routing is Sent && after.connections
                    == before.connections.update(k, used)
            },
        after.client == before.client,
        after.has_buffer == before.has_buffer,
        after.client_label == before.client_label,
{
    let flow = packet_flow(ip_packet, before.client_label);
    assert(serves(before.connections, flow));
    match routing {
        Routing::Sent => {
            let (i, connection) = choose|i: int, connection: C|
                {
                    &&& 0 <= i < before.connections.len()
                    &&& before.connections[i].flow() == flow
                    &&& #[trigger] C::sends(
                        before.connections[i],
                        channel_before,
                        ip_packet,
                        connection,
                        channel_after,
                    )
                    &&& !connection.closed()
                    &&& after == (Routes {
                        connections: before.connections.update(i, connection),
                        ..before
                    })
                };
            assert(i == k) by {
                if i < k {
                    assert(before.connections[i].flow() != before.connections[k].flow());
                } else if k < i {
                    assert(before.connections[k].flow() != before.connections[i].flow());
                }
            }
        },
        Routing::SentAndRemoved => {
            let (i, connection) = choose|i: int, connection: C|
                {
                    &&& 0 <= i < before.connections.len()
                    &&& before.connections[i].flow() == flow
                    &&& #[trigger] C::sends(
                        before.connections[i],
                        channel_before,
                        ip_packet,
                        connection,
                        channel_after,
                    )
                    &&& connection.closed()
                    &&& after == (Routes { connections: before.connections.remove(i), ..before })
                };
            assert(i == k) by {
                if i < k {
                    assert(before.connections[i].flow() != before.connections[k].flow());
                } else if k < i {
                    assert(before.connections[k].flow() != before.connections[i].flow());
                }
            }
        },
        _ => {},
    }
}

/// TCP flows get a TCP connection and UDP flows a UDP connection, for any
/// addresses and ports; there is none for other protocols, or without a transport
/// header.
pub proof fn law_protocol_decides_the_connection(
    flow: Flow,
    ip_packet: IpPacket,
    r: Result<ConnectionKind, IoError>,
)
    requires
        creates(flow, ip_packet, r),
    ensures
        r matches Ok(kind) && kind == ConnectionKind::Tcp <==> ip_packet.transport_header is Some
            && flow.protocol == Protocol::Tcp,
        r matches Ok(kind) && kind == ConnectionKind::Udp <==> ip_packet.transport_header is Some
            && flow.protocol == Protocol::Udp,
        r is Err <==> ip_packet.transport_header is None || flow.protocol == Protocol::Other,
        r matches Err(e) ==> e.kind == ErrorKind::Other,
{
}

/// A new connection is kept for later packets unless its first packet closed it,
/// and the connections of other flows stay as and where they were; where none was
/// created, nothing changes.
pub proof fn law_opening_adds_one_connection<C: Connection>(
    before: Routes<C>,
    channel_before: Outgoing,
    created: Result<C, IoError>,
    ip_packet: IpPacket,
    after: Routes<C>,
    channel_after: Outgoing,
)
    requires
        opened(before, channel_before, created, ip_packet, after, channel_after),
    ensures
        created is Err ==> after == before && channel_after == channel_before,
        before.connections.len() <= after.connections.len() <= before.connections.len() + 1,
        after.connections.take(before.connections.len() as int) == before.connections,
        created matches Ok(connection) && after.connections.len() > before.connections.len()
            ==> after.connections.last().flow() == created->Ok_0.flow()
            && !after.connections.last().closed() && C::sends(
            created->Ok_0,
            channel_before,
            ip_packet,
            after.connections.last(),
            channel_after,
        ),
        created is Ok && after.connections.len() == before.connections.len() ==> exists|used: C|
            used.closed() && #[trigger] C::sends(
                created->Ok_0,
                channel_before,
                ip_packet,
                used,
                channel_after,
            ),
        after.client == before.client,
        after.has_buffer == before.has_buffer,
        after.client_label == before.client_label,
{
    assert(after.connections.take(before.connections.len() as int) =~= before.connections);
}

/// Removing a flow takes out its connection and no other.
pub proof fn law_removing_takes_out_one_flow<C: Connection>(
    connections: Seq<C>,
    flow: Flow,
    k: int,
)
    requires
        distinct(connections),
        0 <= k < connections.len(),
    ensures
        connections[k].flow() != flow ==> without_flow(connections, flow).contains(connections[k]),
        connections[k].flow() == flow ==> without_flow(connections, flow) == connections.remove(k),
        forall|i: int|
            0 <= i < without_flow(connections, flow).len() ==> (#[trigger] without_flow(
                connections,
                flow,
            )[i]).flow() != flow,
{
    let keep = not_serving::<C>(flow);
    if keep(connections[k]) {
        connections.lemma_filter_contains(keep, k);
    } else {
        filter_out_one(connections, k);
    }
    assert forall|i: int| 0 <= i < without_flow(connections, flow).len() implies (
    #[trigger] without_flow(connections, flow)[i]).flow() != flow by {
        connections.lemma_filter_pred(keep, i);
    }
}

/// After a poll a connection stays where it is open and its poll went well or
/// could do nothing right now, and leaves everywhere else, whatever became of the
/// other connections.
pub proof fn law_open_connections_stay<C: Connection>(
    connections: Seq<C>,
    outcomes: Seq<Result<(), IoError>>,
    k: int,
)
    requires
        distinct(connections),
        outcomes.len() == connections.len(),
        0 <= k < connections.len(),
    ensures
        !connections[k].closed() && (outcomes[k] is Ok || outcomes[k]->Err_0.kind
            == ErrorKind::WouldBlock) ==> surviving(connections, outcomes).contains(connections[k]),
        connections[k].closed() || (outcomes[k] is Err && outcomes[k]->Err_0.kind
            != ErrorKind::WouldBlock) ==> !serves(
            surviving(connections, outcomes),
            connections[k].flow(),
        ),
{
    law_poll_removes_exactly_the_closed(connections, outcomes, k);
}

/// A poll that takes out no connection leaves all of them where they were, and in
/// general those that stay keep their order.
pub proof fn law_polling_keeps_the_order<C: Connection>(
    connections: Seq<C>,
    outcomes: Seq<Result<(), IoError>>,
    connection: C,
    outcome: Result<(), IoError>,
)
    requires
        outcomes.len() == connections.len(),
    ensures
        surviving(connections.push(connection), outcomes.push(outcome)) == surviving(
            connections,
            outcomes,
        ) + (if !connection.closed() && (outcome is Ok || outcome->Err_0.kind
            == ErrorKind::WouldBlock) {
            seq![connection]
        } else {
            Seq::empty()
        }),
        leaving(connections.push(connection), outcomes.push(outcome)) == leaving(
            connections,
            outcomes,
        ) + (if !connection.closed() && (outcome is Ok || outcome->Err_0.kind
            == ErrorKind::WouldBlock) {
            Seq::empty()
        } else {
            seq![connections.len() as int]
        }),
        surviving(Seq::<C>::empty(), Seq::empty()) == Seq::<C>::empty(),
        leaving(Seq::<C>::empty(), Seq::empty()) == Seq::<int>::empty(),
{
    let all = connections.push(connection);
    let more = outcomes.push(outcome);
    assert(all.drop_last() =~= connections);
    same_outcomes(connections, outcomes, more);
    assert(surviving(all, more) =~= surviving(connections, outcomes) + (if survives(
        connection,
        outcome,
    ) {
        seq![connection]
    } else {
        Seq::empty()
    }));
    assert(leaving(all, more) =~= leaving(connections, outcomes) + (if survives(
        connection,
        outcome,
    ) {
        Seq::empty()
    } else {
        seq![connections.len() as int]
    }));
}

proof fn same_outcomes<C: Connection>(
    connections: Seq<C>,
    first: Seq<Result<(), IoError>>,
    second: Seq<Result<(), IoError>>,
)
    requires
        first.len() >= connections.len(),
        second.len() >= connections.len(),
        forall|i: int| 0 <= i < connections.len() ==> #[trigger] first[i] == second[i],
    ensures
        surviving(connections, first) == surviving(connections, second),
        leaving(connections, first) == leaving(connections, second),
    decreases connections.len(),
{
    if connections.len() > 0 {
        same_outcomes(connections.drop_last(), first, second);
        assert(first[connections.len() - 1] == second[connections.len() - 1]);
    }
}

/// A connection that leaves after a poll is closed: by the poll where it failed,
/// and before where it did not, in which case it is handed out as it is.
pub proof fn law_leaving_connections_are_closed<C: Connection>(
    before: C,
    outcome: Result<(), IoError>,
    after: C,
)
    requires
        leaves(before, outcome, after),
    ensures
        after.closed(),
        outcome is Ok ==> after == before,
        outcome is Err && outcome->Err_0.kind == ErrorKind::WouldBlock ==> after == before,
        outcome is Err && outcome->Err_0.kind != ErrorKind::WouldBlock ==> C::closes(before, after)
            && after.flow() == before.flow(),
{
}

/// Every call of the router does to its connections what it should, and leaves its
/// settings alone.
pub proof fn law_calls_route<C: Connection>(
    router: &mut Router<C>,
    channel: &mut ClientChannel,
    ip_packet: IpPacket,
    routing: Routing,
    created: Result<C, IoError>,
    id: ConnectionId,
    closed: Vec<C>,
    now: u64,
    outcomes: Vec<Result<(), IoError>>,
    kind: Result<ConnectionKind, IoError>,
)
    ensures
        call_ensures(Router::<C>::send_to_network, (router, channel, &ip_packet), routing)
            ==> routed(
            old(router)@,
            old(channel)@,
            ip_packet,
            final(router)@,
            final(channel)@,
            routing,
        ),
        call_ensures(Router::<C>::open, (router, created, channel, &ip_packet), ()) ==> opened(
            old(router)@,
            old(channel)@,
            created,
            ip_packet,
            final(router)@,
            final(channel)@,
        ),
        call_ensures(Router::<C>::create_connection, (&id, &ip_packet), kind) ==> creates(
            id@,
            ip_packet,
            kind,
        ),
        call_ensures(Router::<C>::remove, (router, &id), ()) ==> final(router)@ == (Routes {
            connections: without_flow(old(router)@.connections, id@),
            ..old(router)@
        }),
        call_ensures(Router::<C>::clear, (router,), closed) ==> {
            &&& final(router)@.connections.len() == 0
            &&& final(router)@.client_label == old(router)@.client_label
            &&& final(router)@.has_buffer == old(router)@.has_buffer
            &&& closed@.len() == old(router)@.connections.len()
            &&& forall|i: int|
                0 <= i < closed@.len() ==> (#[trigger] closed@[i]).closed() && C::closes(
                    old(router)@.connections[i],
                    closed@[i],
                )
        },
        call_ensures(Router::<C>::clean_expired_connections, (router, now), closed) ==> {
            &&& final(router)@ == (Routes {
                connections: active(old(router)@.connections, now),
                ..old(router)@
            })
            &&& closed@.len() == idle(old(router)@.connections, now).len()
            &&& forall|i: int| 0 <= i < closed@.len() ==> (#[trigger] closed@[i]).closed()
        },
        call_ensures(Router::<C>::poll_connections, (router, &outcomes), closed) ==> {
            &&& final(router)@ == (Routes {
                connections: surviving(old(router)@.connections, outcomes@),
                ..old(router)@
            })
            &&& closed@.len() == leaving(old(router)@.connections, outcomes@).len()
            &&& forall|i: int| 0 <= i < closed@.len() ==> (#[trigger] closed@[i]).closed()
        },
{
}

/// The settings of a router are the ones that were set last, each whatever the
/// others are, and setting them touches no connection.
pub proof fn law_calls_set_the_router<C: Connection>(
    router: &mut Router<C>,
    client: u32,
    label: &str,
    fresh: Router<C>,
    n: usize,
)
    ensures
        call_ensures(Router::<C>::set_client, (router, client), ()) ==> final(router)@ == (Routes {
            client: Some(client),
            ..old(router)@
        }),
        call_ensures(Router::<C>::set_client_label, (router, label), ()) ==> final(router)@ == (
        Routes { client_label: label@, ..old(router)@ }),
        call_ensures(Router::<C>::set_buffer, (router,), ()) ==> final(router)@ == (Routes {
            has_buffer: true,
            ..old(router)@
        }),
        call_ensures(Router::<C>::new, (), fresh) ==> fresh@.connections.len() == 0
            && !fresh@.has_buffer && fresh@.client is None && fresh@.client_label.len() == 0,
        call_ensures(Router::<C>::len, (&fresh,), n) ==> n == fresh@.connections.len(),
{
}

/// The connection that is found is one of that flow, and one is found wherever
/// there is one.
pub proof fn law_calls_find_the_connection<C: Connection>(
    router: Router<C>,
    id: ConnectionId,
    place: Option<usize>,
)
    ensures
        call_ensures(Router::<C>::find, (&router, &id), place) ==> {
            &&& place is Some <==> exists|i: int|
                0 <= i < router@.connections.len() && (
                #[trigger] router@.connections[i]).flow() == id@
            &&& place is Some ==> place->0 < router@.connections.len()
                && router@.connections[place->0 as int].flow() == id@
        },
{
}

/// A connection that the router hands out is its own, and what is done to it is
/// done to the router and to no other connection.
pub proof fn law_calls_lend_a_connection<C: Connection>(
    router: &mut Router<C>,
    i: usize,
    connection: &mut C,
)
    ensures
        call_ensures(Router::<C>::connection, (router, i), connection) ==> {
            &&& *old(connection) == old(router)@.connections[i as int]
            &&& final(router)@.connections == old(router)@.connections.update(
                i as int,
                *final(connection),
            )
            &&& final(router)@.client_label == old(router)@.client_label
            &&& final(router)@.has_buffer == old(router)@.has_buffer
        },
{
}

/// Every connection is kept or is idle, and none is both.
pub proof fn every_connection_is_kept_or_idle<C: Connection>(connections: Seq<C>, now: u64)
    ensures
        active(connections, now).len() + idle(connections, now).len() == connections.len(),
    decreases connections.len(),
{
    reveal_with_fuel(Seq::filter, 2);
    if connections.len() > 0 {
        every_connection_is_kept_or_idle(connections.drop_last(), now);
    }
}

} // verus!
