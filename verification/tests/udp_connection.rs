use gnirehtet::io_error::{ErrorKind, IoError};
use gnirehtet::relay::client_channel::{ClientChannel, SharedBuffer};
use gnirehtet::relay::clock::NANOS_PER_SECOND;
use gnirehtet::relay::connection::{Connection, ConnectionId};
use gnirehtet::relay::ip_packet::{IpHeaderData, IpPacket, Protocol, TransportHeaderData};
use gnirehtet::relay::net::{IpAddr, SocketAddr};
use gnirehtet::relay::router::Router;
use gnirehtet::relay::udp_connection::{
    ClientAccess, PollStep, UdpConnection, IDLE_TIMEOUT_SECONDS, SEND_BUFFER_SIZE,
};

fn id(destination: IpAddr) -> ConnectionId {
    ConnectionId::from_headers(
        &IpHeaderData {
            protocol: Protocol::Udp,
            source: IpAddr::V4(0x0a00_0002),
            destination,
        },
        &TransportHeaderData {
            source_port: 5000,
            destination_port: 53,
        },
        "#1",
    )
}

fn packet(raw: &[u8], payload: Option<&[u8]>) -> IpPacket {
    IpPacket {
        raw: raw.to_vec(),
        valid: true,
        ip_header: IpHeaderData {
            protocol: Protocol::Udp,
            source: IpAddr::V4(0x0a00_0002),
            destination: IpAddr::V4(0x0808_0808),
        },
        transport_header: Some(TransportHeaderData {
            source_port: 5000,
            destination_port: 53,
        }),
        payload: payload.map(|p| p.to_vec()),
    }
}

fn open(now: u64) -> UdpConnection {
    match UdpConnection::create(id(IpAddr::V4(0x0808_0808)), Ok(()), now) {
        Ok(connection) => connection,
        Err(_) => panic!("the socket was opened"),
    }
}

fn channel(capacity: usize) -> ClientChannel {
    ClientChannel::new(SharedBuffer::new(capacity))
}

fn would_block<T>() -> Result<T, IoError> {
    Err(IoError::new(ErrorKind::WouldBlock, "later"))
}

fn refused<T>() -> Result<T, IoError> {
    Err(IoError::other("refused"))
}

#[test]
fn a_socket_that_cannot_be_opened_is_an_error() {
    match UdpConnection::create(id(IpAddr::V4(1)), refused(), 0) {
        Err(e) => assert_eq!(e.message, "refused"),
        Ok(_) => panic!("there is no socket"),
    }
}

#[test]
fn a_socket_is_bound_in_the_family_of_its_destination() {
    let v4 = UdpConnection::create_socket(&id(IpAddr::V4(0x0808_0808)));
    assert_eq!(v4.bind, SocketAddr { ip: IpAddr::V4(0), port: 0 });
    assert_eq!(v4.connect, SocketAddr { ip: IpAddr::V4(0x0808_0808), port: 53 });
    assert_eq!(v4.recv_buffer_size, 2 * 1024 * 1024);
    let v6 = UdpConnection::create_socket(&id(IpAddr::V6(5)));
    assert_eq!(v6.bind, SocketAddr { ip: IpAddr::V6(0), port: 0 });
    assert_eq!(v6.connect, SocketAddr { ip: IpAddr::V6(5), port: 53 });
    let local = UdpConnection::create_socket(&id(IpAddr::V4(0x0a00_0202)));
    assert_eq!(local.connect.ip, IpAddr::V4(0x7f00_0001));
}

#[test]
fn datagrams_are_sent_in_order() {
    let mut connection = open(0);
    let mut back = channel(10);
    connection.send_to_network(&mut back, &packet(&[0], Some(&[1, 2])));
    connection.send_to_network(&mut back, &packet(&[0], None));
    connection.send_to_network(&mut back, &packet(&[0], Some(&[3])));
    assert_eq!(connection.bytes_sent(), 3);
    assert!(!back.has_outgoing());
    for expected in [vec![1, 2], vec![3]] {
        match connection.poll_self(1) {
            PollStep::Send(datagram) => assert_eq!(datagram, expected),
            _ => panic!("a datagram waits"),
        }
        assert!(matches!(connection.poll_sent(Ok(())), PollStep::Receive(true)));
        assert!(connection.poll_received(true, would_block(), &mut back).is_ok());
    }
    assert!(matches!(connection.poll_self(2), PollStep::Receive(false)));
}

#[test]
fn what_does_not_fit_is_dropped_and_counted() {
    let mut connection = open(0);
    let mut back = channel(10);
    let most = vec![7; SEND_BUFFER_SIZE];
    connection.send_to_network(&mut back, &packet(&[0], Some(&most)));
    connection.send_to_network(&mut back, &packet(&[0], Some(&[1])));
    assert_eq!(connection.bytes_sent(), SEND_BUFFER_SIZE as u64 + 1);
    match connection.poll_self(1) {
        PollStep::Send(datagram) => assert_eq!(datagram, most),
        _ => panic!("a datagram waits"),
    }
    assert!(matches!(connection.poll_self(1), PollStep::Receive(false)));
}

#[test]
fn a_received_packet_goes_to_the_device() {
    let mut connection = open(0);
    let mut back = channel(10);
    assert!(matches!(connection.poll_self(1), PollStep::Receive(false)));
    let received = Ok(packet(&[1, 2, 3, 4], Some(&[3, 4])));
    assert!(connection.poll_received(false, received, &mut back).is_ok());
    assert_eq!(connection.bytes_received(), 2);
    assert_eq!(back.drain(), [1, 2, 3, 4]);
}

#[test]
fn a_packet_for_a_full_or_busy_buffer_is_dropped() {
    let mut connection = open(0);
    let mut back = channel(3);
    let received = || Ok(packet(&[1, 2, 3, 4], Some(&[3, 4])));
    assert!(connection.poll_received(false, received(), &mut back).is_ok());
    assert!(!back.has_outgoing());
    let mut back = channel(10);
    back.set_busy(true);
    assert!(connection.poll_received(false, received(), &mut back).is_ok());
    back.set_busy(false);
    assert!(!back.has_outgoing());
    assert_eq!(connection.bytes_received(), 4);
    assert!(!connection.is_closed());
}

#[test]
fn a_poll_without_progress_would_block() {
    let mut connection = open(0);
    let mut back = channel(10);
    let blocked = connection.poll_received(false, would_block(), &mut back).unwrap_err();
    assert_eq!(blocked.kind, ErrorKind::WouldBlock);
    assert_eq!(blocked.message, "Connection would block");
    assert!(connection.poll_received(true, would_block(), &mut back).is_ok());
    assert!(matches!(connection.poll_sent(would_block()), PollStep::Receive(false)));
    assert!(!connection.is_closed());
}

#[test]
fn a_failure_closes_the_connection() {
    let mut connection = open(0);
    assert!(matches!(connection.poll_sent(refused()), PollStep::Done));
    assert!(connection.is_closed());
    assert!(matches!(connection.poll_self(5), PollStep::Done));

    let mut connection = open(0);
    let mut back = channel(10);
    assert!(connection.poll_received(false, refused(), &mut back).is_ok());
    assert!(connection.is_closed());
}

#[test]
fn an_idle_connection_expires() {
    assert_eq!(IDLE_TIMEOUT_SECONDS, 300);
    let mut connection = open(7);
    let limit = 301 * NANOS_PER_SECOND;
    assert!(!connection.is_expired(7));
    assert!(!connection.is_expired(7 + limit - 1));
    assert!(connection.is_expired(7 + limit));
    let _ = connection.poll_self(7 + limit);
    assert!(!connection.is_expired(7 + limit));
    assert!(!connection.is_expired(0));
}

#[test]
fn a_connection_leaves_the_router_of_a_free_client_only() {
    let connection = open(0);
    for (access, left) in [
        (ClientAccess::Dropped, 1),
        (ClientAccess::Busy, 1),
        (ClientAccess::Free, 0),
    ] {
        let mut router: Router<UdpConnection> = Router::new();
        router.set_client_label("#1");
        router.open(Ok(open(0)), &mut channel(10), &packet(&[0], None));
        connection.remove_from_router(access, &mut router);
        assert_eq!(router.len(), left);
    }
}
