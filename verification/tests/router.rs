use gnirehtet::io_error::{ErrorKind, IoError};
use gnirehtet::relay::client_channel::{ClientChannel, SharedBuffer};
use gnirehtet::relay::clock::NANOS_PER_SECOND;
use gnirehtet::relay::connection::{Connection, ConnectionId};
use gnirehtet::relay::ip_packet::{IpHeaderData, IpPacket, Protocol, TransportHeaderData};
use gnirehtet::relay::net::IpAddr;
use gnirehtet::relay::router::{ConnectionKind, Router, Routing};
use gnirehtet::relay::udp_connection::{PollStep, UdpConnection};

fn packet(protocol: Protocol, port: u16, payload: &[u8]) -> IpPacket {
    IpPacket {
        raw: payload.to_vec(),
        valid: true,
        ip_header: IpHeaderData {
            protocol,
            source: IpAddr::V4(0x0a00_0002),
            destination: IpAddr::V4(0x0808_0808),
        },
        transport_header: Some(TransportHeaderData {
            source_port: port,
            destination_port: 53,
        }),
        payload: Some(payload.to_vec()),
    }
}

fn flow(port: u16) -> ConnectionId {
    let packet = packet(Protocol::Udp, port, &[]);
    ConnectionId::from_headers(&packet.ip_header, &packet.transport_header.unwrap(), "#1")
}

fn connection(port: u16, now: u64) -> Result<UdpConnection, IoError> {
    UdpConnection::create(flow(port), Ok(()), now)
}

fn router(ports: &[u16]) -> Router<UdpConnection> {
    let mut router = Router::new();
    router.set_client(1);
    router.set_client_label("#1");
    router.set_buffer();
    for port in ports {
        open(&mut router, *port, 0);
    }
    router
}

fn open(router: &mut Router<UdpConnection>, port: u16, now: u64) {
    let first = packet(Protocol::Udp, port, &[]);
    router.open(connection(port, now), &mut channel(), &first);
}

fn channel() -> ClientChannel {
    ClientChannel::new(SharedBuffer::new(100))
}

fn served(router: &Router<UdpConnection>, port: u16) -> bool {
    router.find(&flow(port)).is_some()
}

#[test]
fn packets_that_cannot_be_routed_are_dropped() {
    let mut router = router(&[1]);
    let mut invalid = packet(Protocol::Udp, 1, &[9]);
    invalid.valid = false;
    let routing = router.send_to_network(&mut channel(), &invalid);
    assert!(matches!(routing, Routing::Invalid));
    let mut bare = packet(Protocol::Udp, 1, &[9]);
    bare.transport_header = None;
    let routing = router.send_to_network(&mut channel(), &bare);
    assert!(matches!(routing, Routing::NoTransportHeader));
    assert_eq!(router.len(), 1);
    assert_eq!(router.connection(0).bytes_sent(), 0);
}

#[test]
fn a_new_flow_asks_for_a_connection() {
    let mut router = router(&[]);
    match router.send_to_network(&mut channel(), &packet(Protocol::Udp, 1, &[9])) {
        Routing::Create(id) => {
            assert!(id == flow(1));
            assert_eq!(id.to_string(), "[Client #1] 10.0.0.2:1 -> 8.8.8.8:53");
        }
        _ => panic!("the flow has no connection"),
    }
    assert_eq!(router.len(), 0);
}

#[test]
fn without_a_buffer_there_are_no_connections() {
    let mut router: Router<UdpConnection> = Router::new();
    let routing = router.send_to_network(&mut channel(), &packet(Protocol::Udp, 1, &[9]));
    assert!(matches!(routing, Routing::NoBuffer));
}

#[test]
fn packets_go_to_the_connection_of_their_flow() {
    let mut router = router(&[1, 2]);
    let routing = router.send_to_network(&mut channel(), &packet(Protocol::Udp, 2, &[1, 2, 3]));
    assert!(matches!(routing, Routing::Sent));
    assert_eq!(router.connection(0).bytes_sent(), 0);
    assert_eq!(router.connection(1).bytes_sent(), 3);
    // another protocol is another flow
    let routing = router.send_to_network(&mut channel(), &packet(Protocol::Tcp, 2, &[1]));
    assert!(matches!(routing, Routing::Create(_)));
}

#[test]
fn a_connection_that_is_closed_after_a_packet_is_removed() {
    let mut router = router(&[1, 2]);
    router.connection(0).close();
    let routing = router.send_to_network(&mut channel(), &packet(Protocol::Udp, 1, &[1]));
    assert!(matches!(routing, Routing::SentAndRemoved));
    assert!(!served(&router, 1));
    assert!(served(&router, 2));
}

#[test]
fn the_protocol_decides_what_is_created() {
    type Udp = Router<UdpConnection>;
    let id_of = |p: &IpPacket| {
        ConnectionId::from_headers(&p.ip_header, &p.transport_header.unwrap(), "#1")
    };
    let tcp = packet(Protocol::Tcp, 1, &[]);
    let udp = packet(Protocol::Udp, 1, &[]);
    let other = packet(Protocol::Other, 1, &[]);
    assert!(matches!(
        Udp::create_connection(&id_of(&tcp), &tcp),
        Ok(ConnectionKind::Tcp)
    ));
    assert!(matches!(
        Udp::create_connection(&id_of(&udp), &udp),
        Ok(ConnectionKind::Udp)
    ));
    let unsupported = Udp::create_connection(&id_of(&other), &other).unwrap_err();
    assert_eq!(unsupported.kind, ErrorKind::Other);
    assert_eq!(unsupported.message, "Unsupported protocol: Other");
    let mut bare = packet(Protocol::Udp, 1, &[]);
    bare.transport_header = None;
    let missing = Udp::create_connection(&id_of(&udp), &bare).unwrap_err();
    assert_eq!(missing.message, "No transport header");
}

#[test]
fn a_connection_that_was_not_created_is_not_added() {
    let mut router = router(&[]);
    let first = packet(Protocol::Udp, 1, &[9]);
    router.open(Err(IoError::other("refused")), &mut channel(), &first);
    assert_eq!(router.len(), 0);
    open(&mut router, 1, 0);
    let routing = router.send_to_network(&mut channel(), &packet(Protocol::Udp, 1, &[1]));
    assert!(matches!(routing, Routing::Sent));
}

#[test]
fn the_first_packet_of_a_flow_is_sent_over_its_connection() {
    let mut router = router(&[7]);
    let first = packet(Protocol::Udp, 1, &[1, 2, 3]);
    router.open(connection(1, 0), &mut channel(), &first);
    assert_eq!(router.len(), 2);
    assert_eq!(router.connection(0).bytes_sent(), 0);
    assert_eq!(router.connection(1).bytes_sent(), 3);
    match router.connection(1).poll_self(1) {
        PollStep::Send(datagram) => assert_eq!(datagram, [1, 2, 3]),
        _ => panic!("the first datagram waits"),
    }
    assert!(matches!(router.connection(1).poll_self(2), PollStep::Receive(false)));
}

#[test]
fn a_connection_that_its_first_packet_closes_is_not_kept() {
    let mut router = router(&[]);
    let mut created = connection(1, 0).unwrap_or_else(|_| panic!("the socket was opened"));
    created.close();
    router.open(Ok(created), &mut channel(), &packet(Protocol::Udp, 1, &[1]));
    assert_eq!(router.len(), 0);
}

#[test]
fn connections_are_removed_by_their_flow() {
    let mut router = router(&[1, 2, 3]);
    router.remove(&flow(2));
    router.remove(&flow(9));
    assert_eq!(router.len(), 2);
    assert!(served(&router, 1) && !served(&router, 2) && served(&router, 3));
}

#[test]
fn clearing_closes_every_connection() {
    let mut router = router(&[1, 2]);
    let closed = router.clear();
    assert_eq!(router.len(), 0);
    assert_eq!(closed.len(), 2);
    assert!(closed.iter().all(|c| c.is_closed()));
    assert!(*closed[0].id() == flow(1) && *closed[1].id() == flow(2));
}

#[test]
fn idle_connections_are_cleaned_up() {
    let mut router = router(&[]);
    let now = 400 * NANOS_PER_SECOND;
    open(&mut router, 1, 0);
    open(&mut router, 2, now);
    open(&mut router, 3, 1);
    let closed = router.clean_expired_connections(now);
    assert_eq!(closed.len(), 2);
    assert!(closed.iter().all(|c| c.is_closed()));
    assert!(!served(&router, 1) && served(&router, 2) && !served(&router, 3));
    assert!(router.clean_expired_connections(now).is_empty());
}

#[test]
fn a_poll_removes_what_is_closed_or_failed() {
    let mut router = router(&[1, 2, 3, 4, 5]);
    router.connection(1).close();
    router.connection(4).close();
    let removed = router.poll_connections(&vec![
        Ok(()),
        Ok(()),
        Err(IoError::other("refused")),
        Err(IoError::new(ErrorKind::WouldBlock, "later")),
        Err(IoError::new(ErrorKind::WouldBlock, "later")),
    ]);
    assert_eq!(removed.len(), 3);
    assert!(removed.iter().all(|c| c.is_closed()));
    assert!(*removed[0].id() == flow(2));
    assert!(*removed[1].id() == flow(3));
    assert!(*removed[2].id() == flow(5));
    assert_eq!(router.len(), 2);
    assert!(served(&router, 1) && served(&router, 4));
}
