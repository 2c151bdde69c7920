//! One UDP flow between the relay and an internet server.
//!
//! UDP has no connections, but the relay keeps state for each flow. The socket
//! itself is worked by the owner of the connection: a poll tells what to do with
//! it, and is told what came of that.

use vstd::prelude::*;

use crate::io_error::{ErrorKind, IoError};
use crate::relay::client_channel::{ClientChannel, Outgoing};
use crate::relay::clock::{elapsed, NANOS_PER_SECOND};
use crate::relay::connection::{Connection, ConnectionId, Flow};
use crate::relay::datagram_buffer::DatagramBuffer;
use crate::relay::ip_packet::{IpPacket, MAX_PACKET_LENGTH};
use crate::relay::net::{IpAddr, SocketAddr};
use crate::relay::router::Router;
#[allow(unused_imports)]
use crate::relay::clock::age;
#[allow(unused_imports)]
use crate::relay::connection::forwarded;
#[allow(unused_imports)]
use crate::relay::datagram_buffer::total_length;
#[allow(unused_imports)]
use crate::relay::router::{opened, without_flow, Routes};

verus! {

/// How long a connection may stay idle.
pub const IDLE_TIMEOUT_SECONDS: u64 = 300;

/// The receive buffer that is asked of the system, in bytes.
pub const RECV_BUFFER_SIZE: usize = 2097152;

/// The number of bytes that wait for the network at most.
pub const SEND_BUFFER_SIZE: usize = 262144;

/// The state of a UDP flow.
pub struct UdpConnection {
    id: ConnectionId,
    client_to_network: DatagramBuffer,
    closed: bool,
    idle_since: u64,
    bytes_sent: u64,
    bytes_received: u64,
}

/// What a UDP connection holds.
pub struct UdpState {
    pub flow: Flow,
    /// The datagrams that wait to be sent to the network.
    pub queued: Seq<Seq<u8>>,
    pub closed: bool,
    /// The time of the last poll, or of the creation.
    pub idle_since: u64,
    /// The bytes that came from the device.
    pub bytes_sent: u64,
    /// The bytes that came from the network.
    pub bytes_received: u64,
}

impl View for UdpConnection {
    type V = UdpState;

    closed spec fn view(&self) -> UdpState {
        UdpState {
            flow: self.id@,
            queued: self.client_to_network@,
            closed: self.closed,
            idle_since: self.idle_since,
            bytes_sent: self.bytes_sent,
            bytes_received: self.bytes_received,
        }
    }
}

/// How to open the socket of a UDP flow.
#[derive(Clone, Copy, Debug, PartialEq, Eq, Structural)]
pub struct SocketPlan {
    /// The address to bind to.
    pub bind: SocketAddr,
    /// The address to connect to.
    pub connect: SocketAddr,
    /// The receive buffer to ask for; the socket is good without it too.
    pub recv_buffer_size: usize,
}

/// What a poll asks for next.
pub enum PollStep {
    /// Send this datagram, which left the queue, to the network.
    Send(Vec<u8>),
    /// Receive a packet from the network. Tells whether the poll has made
    /// progress so far.
    Receive(bool),
    /// The poll is over: there is nothing more to do.
    Done,
}

/// How the owner of a connection gets at the client it belongs to.
#[derive(Clone, Copy, Debug, PartialEq, Eq, Structural)]
pub enum ClientAccess {
    /// The client is gone.
    Dropped,
    /// The client is in use.
    Busy,
    /// The client is free.
    Free,
}

/// A counter of bytes after `n` more, which starts over past its maximum.
pub open spec fn counted(total: u64, n: nat) -> u64 {
    ((total + n) % 0x1_0000_0000_0000_0000) as u64
}

/// The unspecified address of the same family.
pub open spec fn unspecified(ip: IpAddr) -> IpAddr {
    match ip {
        IpAddr::V4(_) => IpAddr::V4(0),
        IpAddr::V6(_) => IpAddr::V6(0),
    }
}

/// The connection after it took a packet from the device, with room for
/// `capacity` bytes: the payload is queued where it fits, and counted either
/// way.
pub open spec fn took(state: UdpState, ip_packet: IpPacket, capacity: nat) -> UdpState {
    match ip_packet.payload {
        Some(payload) => UdpState {
            bytes_sent: counted(state.bytes_sent, payload@.len()),
            queued: if total_length(state.queued) + payload@.len() <= capacity {
                state.queued.push(payload@)
            } else {
                state.queued
            },
            ..state
        },
        None => state,
    }
}

/// The connection after it was polled at `now`, before anything was sent or
/// received. The oldest datagram is handed out.
pub open spec fn poll_started(state: UdpState, now: u64) -> UdpState {
    if state.closed {
        state
    } else {
        UdpState {
            idle_since: now,
            queued: if state.queued.len() > 0 {
                state.queued.drop_first()
            } else {
                state.queued
            },
            ..state
        }
    }
}

/// Whether an outcome ends a connection: it does unless nothing could be done
/// right now.
pub open spec fn fatal<T>(outcome: Result<T, IoError>) -> bool {
    outcome matches Err(e) && e.kind != ErrorKind::WouldBlock
}

/// The connection after an attempt to send or receive.
pub open spec fn closed_if_fatal<T>(state: UdpState, outcome: Result<T, IoError>) -> UdpState {
    if fatal(outcome) {
        UdpState { closed: true, ..state }
    } else {
        state
    }
}

/// The number of bytes in the payload of a packet.
pub open spec fn payload_length(ip_packet: IpPacket) -> nat {
    match ip_packet.payload {
        Some(payload) => payload@.len(),
        None => 0,
    }
}

/// The connection after an attempt to receive.
pub open spec fn received(state: UdpState, outcome: Result<IpPacket, IoError>) -> UdpState {
    match outcome {
        Ok(ip_packet) => UdpState {
            bytes_received: counted(state.bytes_received, payload_length(ip_packet)),
            ..state
        },
        Err(_) => closed_if_fatal(state, outcome),
    }
}

/// The channel back to the device after an attempt to receive: the packet is
/// written where it can be, and dropped elsewhere.
pub open spec fn delivered(channel: Outgoing, outcome: Result<IpPacket, IoError>) -> Outgoing {
    match outcome {
        Ok(ip_packet) => channel.offered(ip_packet.raw@),
        Err(_) => channel,
    }
}

/// A connection whose socket was opened at `now`.
pub open spec fn new_state(flow: Flow, now: u64) -> UdpState {
    UdpState {
        flow,
        queued: Seq::empty(),
        closed: false,
        idle_since: now,
        bytes_sent: 0,
        bytes_received: 0,
    }
}

/// How to open the socket of a flow.
pub open spec fn socket_plan(flow: Flow) -> SocketPlan {
    SocketPlan {
        bind: SocketAddr { ip: unspecified(forwarded(flow.destination).ip), port: 0 },
        connect: forwarded(flow.destination),
        recv_buffer_size: RECV_BUFFER_SIZE,
    }
}

/// What a poll of a connection in this state asks for first.
pub open spec fn asks_first(state: UdpState, step: PollStep) -> bool {
    match step {
        PollStep::Done => state.closed,
        PollStep::Send(datagram) => {
            &&& !state.closed
            &&& state.queued.len() > 0
            &&& datagram@ == state.queued[0]
        },
        PollStep::Receive(made_progress) => {
            &&& !state.closed
            &&& state.queued.len() == 0
            &&& !made_progress
        },
    }
}

/// What a poll asks for once a datagram was sent or not.
pub open spec fn asks_after_sending(written: Result<(), IoError>, step: PollStep) -> bool {
    match step {
        PollStep::Done => fatal(written),
        PollStep::Receive(made_progress) => !fatal(written) && made_progress == (written is Ok),
        PollStep::Send(_) => false,
    }
}

/// What a poll reports at its end.
pub open spec fn reports(
    made_progress: bool,
    packet: Result<IpPacket, IoError>,
    r: Result<(), IoError>,
) -> bool {
    match r {
        Ok(_) => made_progress || packet is Ok || fatal(packet),
        Err(e) => {
            &&& !made_progress
            &&& packet is Err
            &&& !fatal(packet)
            &&& e.says(ErrorKind::WouldBlock, "Connection would block"@)
        },
    }
}

impl UdpConnection {
    /// The connection is in order.
    pub closed spec fn in_order(&self) -> bool {
        self.id.wf() && self.client_to_network.wf() && self.client_to_network.capacity()
            == SEND_BUFFER_SIZE
    }

    /// A connection for the flow, once its socket was opened.
    pub fn create(id: ConnectionId, opened: Result<(), IoError>, now: u64) -> (r: Result<
        UdpConnection,
        IoError,
    >)
        requires
            id.wf(),
        ensures
            match opened {
                Ok(_) => r matches Ok(connection) && connection.in_order() && connection@
                    == new_state(id@, now),
                Err(e) => r == Err::<UdpConnection, IoError>(e),
            },
    {
        match opened {
            Ok(_) => {
                let client_to_network = DatagramBuffer::new(4 * MAX_PACKET_LENGTH);
                Ok(
                    UdpConnection {
                        id,
                        client_to_network,
                        closed: false,
                        idle_since: now,
                        bytes_sent: 0,
                        bytes_received: 0,
                    },
                )
            },
            Err(e) => Err(e),
        }
    }

    /// How to open the socket for a flow: bound to the address family of the
    /// destination, and connected to it.
    pub fn create_socket(id: &ConnectionId) -> (plan: SocketPlan)
        ensures
            plan == socket_plan(id@),
    {
        let destination = id.rewritten_destination();
        let autobind_ip = match destination.ip {
            IpAddr::V4(_) => IpAddr::V4(0),
            IpAddr::V6(_) => IpAddr::V6(0),
        };
        SocketPlan {
            bind: SocketAddr { ip: autobind_ip, port: 0 },
            connect: destination,
            recv_buffer_size: RECV_BUFFER_SIZE,
        }
    }

    /// The bytes that came from the device.
    pub fn bytes_sent(&self) -> (n: u64)
        ensures
            n == self@.bytes_sent,
    {
        self.bytes_sent
    }

    /// The bytes that came from the network.
    pub fn bytes_received(&self) -> (n: u64)
        ensures
            n == self@.bytes_received,
    {
        self.bytes_received
    }

    /// Removes the connection of this flow from the router of its client, where
    /// the client is there and free.
    pub fn remove_from_router<C: Connection>(&self, client: ClientAccess, router: &mut Router<C>)
        requires
            old(router).wf(),
        ensures
            final(router).wf(),
            client == ClientAccess::Free ==> final(router)@ == (Routes {
                connections: without_flow(old(router)@.connections, self@.flow),
                ..old(router)@
            }),
            client != ClientAccess::Free ==> final(router)@ == old(router)@,
    {
        match client {
            ClientAccess::Dropped => {},
            ClientAccess::Busy => {},
            ClientAccess::Free => {
                router.remove(&self.id);
            },
        }
    }

    /// Notes that the connection is in use.
    fn touch(&mut self, now: u64)
        requires
            old(self).in_order(),
        ensures
            final(self).in_order(),
            final(self)@ == (UdpState { idle_since: now, ..old(self)@ }),
    {
        self.idle_since = now;
    }

    /// Starts to poll the connection: first a datagram is sent, if one waits,
    /// then a packet is received.
    pub fn poll_self(&mut self, now: u64) -> (step: PollStep)
        requires
            old(self).in_order(),
        ensures
            final(self).in_order(),
            final(self)@ == poll_started(old(self)@, now),
            asks_first(old(self)@, step),
    {
        if self.closed {
            return PollStep::Done;
        }
        self.touch(now);
        match self.client_to_network.take() {
            Some(datagram) => PollStep::Send(datagram),
            None => PollStep::Receive(false),
        }
    }

    /// What came of sending a datagram.
    fn process_send(written: Result<(), IoError>) -> (sent: Result<(), IoError>)
        ensures
            match written {
                Ok(_) => sent is Ok,
                Err(e) => sent matches Err(f) && if e.kind == ErrorKind::WouldBlock {
                    f.says(ErrorKind::WouldBlock, "Would block"@)
                } else {
                    f == e
                },
            },
    {
        match written {
            Ok(_) => Ok(()),
            Err(err) => if err.kind == ErrorKind::WouldBlock {
                Err(IoError::new(ErrorKind::WouldBlock, "Would block"))
            } else {
                Err(err)
            },
        }
    }

    /// Continues a poll, once the datagram was sent or not. An error closes the
    /// connection and ends the poll. The datagram is gone either way: it is not
    /// queued again where the network could not take it.
    pub fn poll_sent(&mut self, written: Result<(), IoError>) -> (step: PollStep)
        requires
            old(self).in_order(),
        ensures
            final(self).in_order(),
            final(self)@ == closed_if_fatal(old(self)@, written),
            asks_after_sending(written, step),
    {
        match Self::process_send(written) {
            Ok(_) => PollStep::Receive(true),
            Err(err) => if err.kind == ErrorKind::WouldBlock {
                PollStep::Receive(false)
            } else {
                self.close();
                PollStep::Done
            },
        }
    }

    /// Passes a packet from the network on to the device. It is dropped where
    /// the device's buffer is in use or too full.
    fn read(&mut self, ip_packet: &IpPacket, client_channel: &mut ClientChannel)
        requires
            old(self).in_order(),
            old(client_channel).wf(),
        ensures
            final(self).in_order(),
            final(client_channel).wf(),
            final(self)@ == (UdpState {
                bytes_received: counted(old(self)@.bytes_received, payload_length(*ip_packet)),
                ..old(self)@
            }),
            final(client_channel)@ == old(client_channel)@.offered(ip_packet.raw@),
    {
        let n: u64 = match &ip_packet.payload {
            Some(payload) => payload.len() as u64,
            None => 0,
        };
        self.bytes_received = self.bytes_received.wrapping_add(n);
        let _ = client_channel.send_to_client(ip_packet);
    }

    /// What came of receiving a packet.
    fn process_receive(
        &mut self,
        packet: Result<IpPacket, IoError>,
        client_channel: &mut ClientChannel,
    ) -> (r: Result<(), IoError>)
        requires
            old(self).in_order(),
            old(client_channel).wf(),
        ensures
            final(self).in_order(),
            final(client_channel).wf(),
            final(client_channel)@ == delivered(old(client_channel)@, packet),
            match packet {
                Ok(_) => r is Ok && final(self)@ == received(old(self)@, packet),
                Err(e) => r == Err::<(), IoError>(e) && final(self)@ == old(self)@,
            },
    {
        match packet {
            Ok(ip_packet) => {
                self.read(&ip_packet, client_channel);
                Ok(())
            },
            Err(err) => Err(err),
        }
    }

    /// Ends a poll, once a packet was received or not. An error closes the
    /// connection.
    ///
    /// Fails with `WouldBlock` if the poll made no progress.
    pub fn poll_received(
        &mut self,
        made_progress: bool,
        packet: Result<IpPacket, IoError>,
        client_channel: &mut ClientChannel,
    ) -> (r: Result<(), IoError>)
        requires
            old(self).in_order(),
            old(client_channel).wf(),
        ensures
            final(self).in_order(),
            final(client_channel).wf(),
            final(self)@ == received(old(self)@, packet),
            final(client_channel)@ == delivered(old(client_channel)@, packet),
            reports(made_progress, packet, r),
    {
        match self.process_receive(packet, client_channel) {
            Ok(_) => Ok(()),
            Err(err) => if err.kind != ErrorKind::WouldBlock {
                self.close();
                Ok(())
            } else if made_progress {
                Ok(())
            } else {
                Err(IoError::new(ErrorKind::WouldBlock, "Connection would block"))
            },
        }
    }
}

impl Connection for UdpConnection {
    open spec fn flow(&self) -> Flow {
        self@.flow
    }

    open spec fn wf(&self) -> bool {
        self.in_order()
    }

    open spec fn closed(&self) -> bool {
        self@.closed
    }

    open spec fn expired(&self, now: u64) -> bool {
        age(self@.idle_since, now) / NANOS_PER_SECOND > IDLE_TIMEOUT_SECONDS
    }

    open spec fn sends(
        before: UdpConnection,
        channel_before: Outgoing,
        ip_packet: IpPacket,
        after: UdpConnection,
        channel_after: Outgoing,
    ) -> bool {
        &&& after@ == took(before@, ip_packet, SEND_BUFFER_SIZE as nat)
        &&& channel_after == channel_before
    }

    open spec fn closes(before: UdpConnection, after: UdpConnection) -> bool {
        after@ == (UdpState { closed: true, ..before@ })
    }

    fn id(&self) -> (id: &ConnectionId) {
        &self.id
    }

    fn send_to_network(&mut self, client_channel: &mut ClientChannel, ip_packet: &IpPacket) {
        match &ip_packet.payload {
            Some(payload) => {
                self.bytes_sent = self.bytes_sent.wrapping_add(payload.len() as u64);
                let _ = self.client_to_network.read_from(payload.as_slice());
            },
            None => {},
        }
    }

    fn close(&mut self) {
        self.closed = true;
    }

    fn is_expired(&self, now: u64) -> (r: bool) {
        elapsed(self.idle_since, now) / NANOS_PER_SECOND > IDLE_TIMEOUT_SECONDS
    }

    fn is_closed(&self) -> (r: bool) {
        self.closed
    }
}

/// The socket of a flow is bound to the address family that it sends to.
pub proof fn law_bind_family_matches(destination: SocketAddr)
    ensures
        unspecified(forwarded(destination).ip) is V4 <==> forwarded(destination).ip is V4,
        destination.ip is V4 <==> forwarded(destination).ip is V4,
{
}

/// The connection after a whole poll in which `written` is what came of sending
/// the oldest datagram, where one waited, and `packet` what came of receiving.
pub open spec fn polled(
    state: UdpState,
    now: u64,
    written: Result<(), IoError>,
    packet: Result<IpPacket, IoError>,
) -> UdpState {
    let started = poll_started(state, now);
    if state.closed {
        started
    } else if state.queued.len() > 0 && fatal(written) {
        closed_if_fatal(started, written)
    } else {
        received(started, packet)
    }
}

/// A poll leaves a closed connection as it is, and closes an open one exactly
/// where sending or receiving failed for good.
pub proof fn law_poll_closes_on_failure(
    state: UdpState,
    now: u64,
    written: Result<(), IoError>,
    packet: Result<IpPacket, IoError>,
)
    ensures
        state.closed ==> polled(state, now, written, packet) == state,
        !state.closed ==> (polled(state, now, written, packet).closed <==> (state.queued.len() > 0
            && fatal(written)) || fatal(packet)),
        polled(state, now, written, packet).flow == state.flow,
        polled(state, now, written, packet).bytes_sent == state.bytes_sent,
{
}

/// Datagrams leave in the order in which the device sent them, each poll of an
/// open connection hands out one, and what does not fit is dropped without
/// disturbing the others.
pub proof fn law_datagrams_in_order(state: UdpState, now: u64, ip_packet: IpPacket, capacity: nat)
    requires
        !state.closed,
        state.queued.len() > 0,
    ensures
        poll_started(state, now).queued == state.queued.skip(1),
        took(state, ip_packet, capacity).queued == state.queued || took(
            state,
            ip_packet,
            capacity,
        ).queued == state.queued.push(ip_packet.payload->0@),
        took(state, ip_packet, capacity).queued[0] == state.queued[0],
{
    assert(state.queued.drop_first() =~= state.queued.skip(1));
}

/// The packet that begins a flow is not lost: its payload is the first datagram
/// that waits in the new connection, and is counted.
pub proof fn law_first_datagram_is_queued(
    before: Routes<UdpConnection>,
    channel_before: Outgoing,
    created: UdpConnection,
    ip_packet: IpPacket,
    after: Routes<UdpConnection>,
    channel_after: Outgoing,
)
    requires
        opened(before, channel_before, Ok(created), ip_packet, after, channel_after),
        !created@.closed,
        created@.queued.len() == 0,
        created@.bytes_sent == 0,
        ip_packet.payload matches Some(payload) && payload@.len() <= SEND_BUFFER_SIZE,
    ensures
        after.connections.len() == before.connections.len() + 1,
        after.connections.drop_last() == before.connections,
        after.connections.last()@.queued == seq![ip_packet.payload->0@],
        after.connections.last()@.bytes_sent == ip_packet.payload->0@.len(),
        channel_after == channel_before,
{
    let used = choose|used: UdpConnection|
        {
            &&& #[trigger] UdpConnection::sends(
                created,
                channel_before,
                ip_packet,
                used,
                channel_after,
            )
            &&& used.flow() == created.flow()
            &&& after == (Routes {
                connections: if used.closed() {
                    before.connections
                } else {
                    before.connections.push(used)
                },
                ..before
            })
        };
    assert(after.connections.drop_last() =~= before.connections);
    assert(used@.queued =~= seq![ip_packet.payload->0@]);
}

/// What happens to a connection.
pub enum Turn {
    /// It takes a packet from the device.
    Taken(IpPacket),
    /// A poll starts.
    Polled(u64),
    /// A datagram was sent or not.
    Sent(Result<(), IoError>),
    /// A packet was received or not.
    Received(Result<IpPacket, IoError>),
}

/// The connection after these turns, with room for `capacity` bytes.
pub open spec fn after_turns(state: UdpState, turns: Seq<Turn>, capacity: nat) -> UdpState
    decreases turns.len(),
{
    if turns.len() == 0 {
        state
    } else {
        let before = after_turns(state, turns.drop_last(), capacity);
        match turns.last() {
            Turn::Taken(ip_packet) => took(before, ip_packet, capacity),
            Turn::Polled(now) => poll_started(before, now),
            Turn::Sent(written) => closed_if_fatal(before, written),
            Turn::Received(packet) => received(before, packet),
        }
    }
}

/// Whether the payload of a packet is queued.
pub open spec fn queues(state: UdpState, ip_packet: IpPacket, capacity: nat) -> bool {
    &&& ip_packet.payload is Some
    &&& total_length(state.queued) + ip_packet.payload->0@.len() <= capacity
}

/// The payloads that were queued in these turns, in order.
pub open spec fn accepted(state: UdpState, turns: Seq<Turn>, capacity: nat) -> Seq<Seq<u8>>
    decreases turns.len(),
{
    if turns.len() == 0 {
        Seq::empty()
    } else {
        let before = after_turns(state, turns.drop_last(), capacity);
        let earlier = accepted(state, turns.drop_last(), capacity);
        match turns.last() {
            Turn::Taken(ip_packet) => if queues(before, ip_packet, capacity) {
                earlier.push(ip_packet.payload->0@)
            } else {
                earlier
            },
            _ => earlier,
        }
    }
}

/// The datagrams that were handed out to be sent in these turns, in order.
pub open spec fn handed_out(state: UdpState, turns: Seq<Turn>, capacity: nat) -> Seq<Seq<u8>>
    decreases turns.len(),
{
    if turns.len() == 0 {
        Seq::empty()
    } else {
        let before = after_turns(state, turns.drop_last(), capacity);
        let earlier = handed_out(state, turns.drop_last(), capacity);
        if turns.last() is Polled && !before.closed && before.queued.len() > 0 {
            earlier.push(before.queued[0])
        } else {
            earlier
        }
    }
}

/// However packets, polls, and what came of sending and receiving follow each
/// other, every datagram that was queued is handed out once, unchanged and in
/// order, or still waits. One that was handed out is gone from the queue, whatever
/// came of sending it.
pub proof fn law_no_datagram_is_lost(state: UdpState, turns: Seq<Turn>, capacity: nat)
    ensures
        handed_out(state, turns, capacity) + after_turns(state, turns, capacity).queued
            == state.queued + accepted(state, turns, capacity),
    decreases turns.len(),
{
    let ends = handed_out(state, turns, capacity) + after_turns(state, turns, capacity).queued;
    let starts = state.queued + accepted(state, turns, capacity);
    if turns.len() == 0 {
        assert(ends =~= starts);
    } else {
        let earlier = turns.drop_last();
        law_no_datagram_is_lost(state, earlier, capacity);
        let before = after_turns(state, earlier, capacity);
        let sent = handed_out(state, earlier, capacity);
        match turns.last() {
            Turn::Taken(ip_packet) => {
                if queues(before, ip_packet, capacity) {
                    let payload = ip_packet.payload->0@;
                    let queued = state.queued + accepted(state, earlier, capacity);
                    assert(ends =~= (sent + before.queued).push(payload));
                    assert(starts =~= queued.push(payload));
                }
            },
            _ => {
                assert(ends =~= sent + before.queued);
            },
        }
    }
}

/// A connection does not expire while it is polled at least once in the idle
/// timeout.
pub proof fn law_polled_connection_stays(connection: UdpConnection, polled_at: u64, now: u64)
    requires
        connection@.idle_since == polled_at,
        polled_at <= now,
    ensures
        connection.expired(now) <==> now - polled_at >= (IDLE_TIMEOUT_SECONDS + 1)
            * NANOS_PER_SECOND,
{
}

/// Receiving touches nothing but the counter of received bytes, and closes the
/// connection where it failed for good: the datagrams that wait for the network
/// stay, and so do the flow, the idle time and the counter of sent bytes.
pub proof fn law_receiving_keeps_the_queue(state: UdpState, packet: Result<IpPacket, IoError>)
    ensures
        received(state, packet).queued == state.queued,
        received(state, packet).flow == state.flow,
        received(state, packet).idle_since == state.idle_since,
        received(state, packet).bytes_sent == state.bytes_sent,
        received(state, packet).closed <==> state.closed || (packet is Err && packet->Err_0.kind
            != ErrorKind::WouldBlock),
        packet is Err ==> received(state, packet).bytes_received == state.bytes_received,
        packet is Ok && packet->Ok_0.payload is None ==> received(state, packet).bytes_received
            == state.bytes_received,
        packet is Ok && packet->Ok_0.payload is Some ==> received(state, packet).bytes_received
            == (state.bytes_received + packet->Ok_0.payload->0@.len()) % 0x1_0000_0000_0000_0000,
{
}

/// What came of sending touches nothing but whether the connection is closed,
/// which it is from then on exactly where sending failed for good.
pub proof fn law_sending_keeps_the_queue(state: UdpState, written: Result<(), IoError>)
    ensures
        closed_if_fatal(state, written).queued == state.queued,
        closed_if_fatal(state, written).flow == state.flow,
        closed_if_fatal(state, written).idle_since == state.idle_since,
        closed_if_fatal(state, written).bytes_sent == state.bytes_sent,
        closed_if_fatal(state, written).bytes_received == state.bytes_received,
        closed_if_fatal(state, written).closed <==> state.closed || (written is Err
            && written->Err_0.kind != ErrorKind::WouldBlock),
{
}

/// A packet from the device adds its payload behind the datagrams that wait where
/// 262144 bytes have room for all of them, and else no datagram; its bytes are
/// counted either way, and nothing else changes, not even in the channel back to
/// the device.
pub proof fn law_taking_a_packet(
    before: UdpConnection,
    channel_before: Outgoing,
    ip_packet: IpPacket,
    after: UdpConnection,
    channel_after: Outgoing,
)
    requires
        UdpConnection::sends(before, channel_before, ip_packet, after, channel_after),
    ensures
        channel_after == channel_before,
        after@.flow == before@.flow,
        after@.closed == before@.closed,
        after@.idle_since == before@.idle_since,
        after@.bytes_received == before@.bytes_received,
        ip_packet.payload is None ==> after@ == before@,
        ip_packet.payload is Some ==> {
            let payload = ip_packet.payload->0@;
            &&& after@.queued == (if total_length(before@.queued) + payload.len() <= 262144 {
                before@.queued.push(payload)
            } else {
                before@.queued
            })
            &&& after@.bytes_sent == (before@.bytes_sent + payload.len())
                % 0x1_0000_0000_0000_0000
        },
{
}

/// The bytes that wait are those of all the datagrams.
pub proof fn law_waiting_bytes_add_up(datagrams: Seq<Seq<u8>>, datagram: Seq<u8>)
    ensures
        total_length(Seq::empty()) == 0,
        total_length(datagrams.push(datagram)) == total_length(datagrams) + datagram.len(),
{
    assert(datagrams.push(datagram).drop_last() =~= datagrams);
}

/// An answer from the network goes to the device as it is, behind what waits
/// there, where the buffer is free and has room for all of it; else it is dropped.
/// Without an answer nothing is written.
pub proof fn law_answers_go_to_the_device(
    channel: Outgoing,
    ip_packet: IpPacket,
    error: IoError,
)
    ensures
        !channel.busy && channel.bytes.len() + ip_packet.raw@.len() <= channel.capacity
            ==> delivered(channel, Ok(ip_packet)).bytes == channel.bytes + ip_packet.raw@,
        channel.busy || channel.bytes.len() + ip_packet.raw@.len() > channel.capacity ==> delivered(
            channel,
            Ok(ip_packet),
        ) == channel,
        delivered(channel, Ok(ip_packet)).busy == channel.busy,
        delivered(channel, Ok(ip_packet)).capacity == channel.capacity,
        delivered(channel, Err(error)) == channel,
{
}

/// The start of a poll notes the time and takes out the oldest datagram, and
/// changes nothing else; a closed connection is left as it is.
pub proof fn law_poll_takes_one_datagram(state: UdpState, now: u64)
    ensures
        state.closed ==> poll_started(state, now) == state,
        !state.closed ==> {
            &&& poll_started(state, now).idle_since == now
            &&& state.queued.len() > 0 ==> poll_started(state, now).queued == state.queued.subrange(
                1,
                state.queued.len() as int,
            )
            &&& state.queued.len() == 0 ==> poll_started(state, now).queued.len() == 0
        },
        poll_started(state, now).flow == state.flow,
        poll_started(state, now).closed == state.closed,
        poll_started(state, now).bytes_sent == state.bytes_sent,
        poll_started(state, now).bytes_received == state.bytes_received,
{
    if !state.closed && state.queued.len() > 0 {
        assert(state.queued.drop_first() =~= state.queued.subrange(1, state.queued.len() as int));
    }
}

/// A poll of an open connection asks to send the oldest datagram, the very one
/// that left the queue, and to receive where none waits; a closed connection asks
/// for nothing.
pub proof fn law_poll_sends_what_waits(state: UdpState, now: u64, step: PollStep)
    requires
        asks_first(state, step),
    ensures
        state.closed <==> step is Done,
        !state.closed && state.queued.len() == 0 ==> step == PollStep::Receive(false),
        !state.closed && state.queued.len() > 0 ==> (step matches PollStep::Send(datagram)
            && seq![datagram@] + poll_started(state, now).queued == state.queued),
{
    if let PollStep::Send(datagram) = step {
        assert(seq![datagram@] + state.queued.drop_first() =~= state.queued);
    }
}

/// After sending a poll goes on to receive unless sending failed for good, and
/// counts as progress exactly what was sent.
pub proof fn law_poll_goes_on_after_sending(written: Result<(), IoError>, step: PollStep)
    requires
        asks_after_sending(written, step),
    ensures
        written is Ok ==> step == PollStep::Receive(true),
        written is Err && written->Err_0.kind == ErrorKind::WouldBlock ==> step
            == PollStep::Receive(false),
        written is Err && written->Err_0.kind != ErrorKind::WouldBlock ==> step is Done,
{
}

/// A poll reports that it would block exactly where nothing was sent, nothing was
/// received and nothing failed.
pub proof fn law_poll_reports_progress(
    made_progress: bool,
    packet: Result<IpPacket, IoError>,
    r: Result<(), IoError>,
)
    requires
        reports(made_progress, packet, r),
    ensures
        r is Err <==> !made_progress && packet is Err && packet->Err_0.kind
            == ErrorKind::WouldBlock,
        r is Err ==> r->Err_0.kind == ErrorKind::WouldBlock,
{
}

/// The socket of a flow is connected to where the flow's packets go, and bound to
/// any port of the unspecified address of the same family; it asks for a receive
/// buffer of two mebibytes.
pub proof fn law_socket_serves_its_flow(flow: Flow)
    ensures
        socket_plan(flow).connect == forwarded(flow.destination),
        socket_plan(flow).bind.port == 0,
        flow.destination.ip is V4 ==> socket_plan(flow).bind.ip == IpAddr::V4(0)
            && socket_plan(flow).connect.ip is V4,
        flow.destination.ip is V6 ==> socket_plan(flow).bind.ip == IpAddr::V6(0)
            && socket_plan(flow).connect == flow.destination,
        socket_plan(flow).connect.port == flow.destination.port,
        socket_plan(flow).recv_buffer_size == 2 * 1024 * 1024,
{
}

/// A new connection is open, has nothing to send, has counted nothing, and is as
/// young as it can be.
pub proof fn law_new_connections_are_empty(flow: Flow, now: u64)
    ensures
        new_state(flow, now).flow == flow,
        !new_state(flow, now).closed,
        new_state(flow, now).queued.len() == 0,
        new_state(flow, now).idle_since == now,
        new_state(flow, now).bytes_sent == 0,
        new_state(flow, now).bytes_received == 0,
{
}

/// A connection expires 301 seconds after its last poll, and not before, whatever
/// else it holds.
pub proof fn law_idle_connections_expire(connection: UdpConnection, now: u64)
    ensures
        connection.expired(now) <==> connection@.idle_since <= now && now
            - connection@.idle_since >= 301_000_000_000,
{
}

/// Closing a connection changes nothing but that it is closed.
pub proof fn law_closing_keeps_the_rest(before: UdpConnection, after: UdpConnection)
    requires
        UdpConnection::closes(before, after),
    ensures
        after.closed(),
        after@.flow == before@.flow,
        after@.queued == before@.queued,
        after@.idle_since == before@.idle_since,
        after@.bytes_sent == before@.bytes_sent,
        after@.bytes_received == before@.bytes_received,
{
}

/// Every call of a UDP connection does to it and to the channel what it should.
pub proof fn law_calls_relay_datagrams(
    connection: &mut UdpConnection,
    channel: &mut ClientChannel,
    ip_packet: IpPacket,
    now: u64,
    step: PollStep,
    written: Result<(), IoError>,
    made_progress: bool,
    packet: Result<IpPacket, IoError>,
    r: Result<(), IoError>,
)
    ensures
        call_ensures(
            <UdpConnection as Connection>::send_to_network,
            (connection, channel, &ip_packet),
            (),
        ) ==> final(connection)@ == took(old(connection)@, ip_packet, 262144) && final(channel)@
            == old(channel)@,
        call_ensures(<UdpConnection as Connection>::close, (connection,), ()) ==> final(connection)@
            == (UdpState { closed: true, ..old(connection)@ }),
        call_ensures(UdpConnection::poll_self, (connection, now), step) ==> final(connection)@
            == poll_started(old(connection)@, now) && asks_first(old(connection)@, step),
        call_ensures(UdpConnection::poll_sent, (connection, written), step) ==> final(connection)@
            == closed_if_fatal(old(connection)@, written) && asks_after_sending(written, step),
        call_ensures(
            UdpConnection::poll_received,
            (connection, made_progress, packet, channel),
            r,
        ) ==> {
            &&& final(connection)@ == received(old(connection)@, packet)
            &&& final(channel)@ == delivered(old(channel)@, packet)
            &&& reports(made_progress, packet, r)
        },
{
}

/// A UDP connection is opened, counted, aged and removed as it should be on every
/// call.
pub proof fn law_calls_make_a_connection<C: Connection>(
    id: ConnectionId,
    opened: Result<(), IoError>,
    now: u64,
    created: Result<UdpConnection, IoError>,
    plan: SocketPlan,
    connection: UdpConnection,
    n: u64,
    r: bool,
    access: ClientAccess,
    router: &mut Router<C>,
)
    ensures
        call_ensures(UdpConnection::create, (id, opened, now), created) ==> {
            &&& created is Ok <==> opened is Ok
            &&& created is Ok ==> created->Ok_0@ == new_state(id@, now)
            &&& created is Err ==> created->Err_0 == opened->Err_0
        },
        call_ensures(UdpConnection::create_socket, (&id,), plan) ==> plan == socket_plan(id@),
        call_ensures(UdpConnection::bytes_sent, (&connection,), n) ==> n == connection@.bytes_sent,
        call_ensures(UdpConnection::bytes_received, (&connection,), n) ==> n
            == connection@.bytes_received,
        call_ensures(<UdpConnection as Connection>::is_closed, (&connection,), r) ==> r
            == connection@.closed,
        call_ensures(<UdpConnection as Connection>::is_expired, (&connection, now), r) ==> (r
            <==> connection@.idle_since <= now && now - connection@.idle_since >= 301_000_000_000),
        call_ensures(
            UdpConnection::remove_from_router::<C>,
            (&connection, access, router),
            (),
        ) ==> {
            &&& access is Free ==> final(router)@.connections == without_flow(
                old(router)@.connections,
                connection@.flow,
            )
            &&& !(access is Free) ==> final(router)@ == old(router)@
        },
{
}

} // verus!
