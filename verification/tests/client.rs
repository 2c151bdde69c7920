use gnirehtet::io_error::{ErrorKind, IoError};
use gnirehtet::relay::client::{make_label, Client, DeviceFeed};
use gnirehtet::relay::clock::NANOS_PER_SECOND;
use gnirehtet::relay::connection::Connection;
use gnirehtet::relay::ip_packet::{
    IpHeaderData, IpPacket, Protocol, TransportHeaderData, MAX_PACKET_LENGTH,
};
use gnirehtet::relay::net::IpAddr;
use gnirehtet::relay::router::ConnectionKind;
use gnirehtet::relay::udp_connection::{PollStep, UdpConnection};

fn packet(protocol: Protocol, port: u16, length: usize) -> IpPacket {
    IpPacket {
        raw: vec![port as u8; length],
        valid: true,
        ip_header: IpHeaderData {
            protocol,
            source: IpAddr::V4(0x0a00_0002),
            destination: IpAddr::V4(0x0808_0808),
        },
        transport_header: Some(TransportHeaderData {
            source_port: port,
            destination_port: 53,
        }),
        payload: Some(vec![0; length]),
    }
}

fn client() -> Client<UdpConnection> {
    match Client::create(1, Some("S1".to_string())) {
        Ok(client) => client,
        Err(_) => panic!("a client can always be created"),
    }
}

fn feed_all(client: &mut Client<UdpConnection>, packets: Vec<IpPacket>, now: u64) -> usize {
    let mut feed = DeviceFeed::new(Ok(true), packets);
    while let Some(request) = client.feed_device_data(&mut feed) {
        assert_eq!(request.kind, ConnectionKind::Udp);
        let created = UdpConnection::create(request.id, Ok(()), now);
        client.connection_opened(created, feed.packet(request.packet));
    }
    feed.count()
}

#[test]
fn a_label_tells_number_and_serial() {
    assert_eq!(make_label(7, &None), "#7");
    assert_eq!(make_label(12, &Some("emulator-5554".to_string())), "#12 (emulator-5554)");
    assert_ne!(
        make_label(1, &Some("S".to_string())),
        make_label(11, &Some("S".to_string()))
    );
}

#[test]
fn a_client_starts_empty() {
    let mut client = client();
    assert_eq!(client.id(), 1);
    assert!(!client.is_closed());
    assert!(!client.has_outgoing());
    assert_eq!(client.router().len(), 0);
    assert_eq!(client.drain_outgoing(), []);
}

#[test]
fn packets_open_connections_and_then_use_them() {
    let mut client = client();
    let routed = feed_all(
        &mut client,
        vec![
            packet(Protocol::Udp, 1, 10),
            packet(Protocol::Udp, 2, 10),
            packet(Protocol::Udp, 1, 4),
            packet(Protocol::Udp, 1, 3),
        ],
        0,
    );
    assert_eq!(routed, 4);
    assert_eq!(client.router().len(), 2);
    // the packet that begins a flow goes to the connection that is opened for it
    assert_eq!(client.router().connection(0).bytes_sent(), 17);
    assert_eq!(client.router().connection(1).bytes_sent(), 10);
    match client.router().connection(0).poll_self(1) {
        PollStep::Send(datagram) => assert_eq!(datagram.len(), 10),
        _ => panic!("the first datagram waits"),
    }
}

#[test]
fn feeding_in_parts_routes_the_same_packets() {
    let packets = || {
        vec![
            packet(Protocol::Udp, 1, 10),
            packet(Protocol::Udp, 2, 6),
            packet(Protocol::Udp, 1, 4),
            packet(Protocol::Other, 1, 4),
            packet(Protocol::Udp, 2, 3),
        ]
    };
    for cut in 0..=5 {
        let mut client = client();
        let mut first = packets();
        let second = first.split_off(cut);
        let routed = feed_all(&mut client, first, 0) + feed_all(&mut client, second, 0);
        assert_eq!(routed, 5);
        assert_eq!(client.router().len(), 2);
        assert_eq!(client.router().connection(0).bytes_sent(), 14);
        assert_eq!(client.router().connection(1).bytes_sent(), 9);
    }
}

#[test]
fn a_request_names_the_flow_and_the_packet() {
    let mut client = client();
    let mut invalid = packet(Protocol::Udp, 9, 1);
    invalid.valid = false;
    let mut feed = DeviceFeed::new(Ok(true), vec![invalid, packet(Protocol::Tcp, 2, 5)]);
    match client.feed_device_data(&mut feed) {
        Some(request) => {
            assert_eq!(request.kind, ConnectionKind::Tcp);
            assert_eq!(request.packet, 1);
            assert_eq!(
                request.id.to_string(),
                "[Client #1 (S1)] 10.0.0.2:2 -> 8.8.8.8:53"
            );
            assert_eq!(feed.packet(request.packet).length(), 5);
        }
        None => panic!("the flow has no connection"),
    }
    client.connection_opened(Err(IoError::other("refused")), feed.packet(1));
    assert!(client.feed_device_data(&mut feed).is_none());
    assert_eq!(feed.count(), 2);
    assert_eq!(client.router().len(), 0);
}

#[test]
fn other_protocols_open_nothing() {
    let mut client = client();
    assert_eq!(feed_all(&mut client, vec![packet(Protocol::Other, 1, 10)], 0), 1);
    assert_eq!(client.router().len(), 0);
}

#[test]
fn a_read_of_nothing_routes_nothing() {
    for read in [Ok(false), Err(IoError::other("broken"))] {
        let mut client = client();
        let mut feed = DeviceFeed::new(read, vec![packet(Protocol::Udp, 1, 10)]);
        assert!(client.feed_device_data(&mut feed).is_none());
        assert_eq!(feed.count(), 0);
    }
}

#[test]
fn the_buffer_of_a_client_holds_sixteen_large_packets() {
    let mut client = client();
    for _ in 0..16 {
        assert!(client
            .send_to_client(&packet(Protocol::Udp, 1, MAX_PACKET_LENGTH))
            .is_ok());
    }
    let full = client.send_to_client(&packet(Protocol::Udp, 1, 1)).unwrap_err();
    assert_eq!(full.kind, ErrorKind::WouldBlock);
    assert_eq!(full.message, "Client buffer full");
    assert!(client.has_outgoing());
    assert_eq!(client.drain_outgoing().len(), 16 * MAX_PACKET_LENGTH);
    assert!(!client.has_outgoing());
}

#[test]
fn the_buffer_of_a_client_can_be_in_use() {
    let mut client = client();
    assert!(client.send_to_client(&packet(Protocol::Udp, 1, 2)).is_ok());
    client.channel().set_busy(true);
    let busy = client.send_to_client(&packet(Protocol::Udp, 1, 1)).unwrap_err();
    assert_eq!(busy.message, "client buffer busy");
    assert!(!client.has_outgoing());
    assert_eq!(client.drain_outgoing(), []);
    client.channel().set_busy(false);
    assert_eq!(client.drain_outgoing(), [1, 1]);
}

#[test]
fn connections_write_back_over_the_channel() {
    let mut client = client();
    feed_all(&mut client, vec![packet(Protocol::Udp, 1, 1)], 0);
    let (connection, channel) = client.connection_and_channel(0);
    let answer = packet(Protocol::Udp, 6, 3);
    assert!(connection.poll_received(false, Ok(answer), channel).is_ok());
    assert_eq!(client.drain_outgoing(), [6, 6, 6]);
}

#[test]
fn closing_a_client_closes_its_connections() {
    let mut client = client();
    feed_all(
        &mut client,
        vec![packet(Protocol::Udp, 1, 1), packet(Protocol::Udp, 2, 1)],
        0,
    );
    let closed = client.close();
    assert!(client.is_closed());
    assert_eq!(closed.len(), 2);
    assert!(closed.iter().all(|c| c.is_closed()));
    assert_eq!(client.router().len(), 0);
}

#[test]
fn a_client_cleans_up_and_polls() {
    let mut client = client();
    feed_all(&mut client, vec![packet(Protocol::Udp, 1, 1)], 0);
    feed_all(&mut client, vec![packet(Protocol::Udp, 2, 1)], 200 * NANOS_PER_SECOND);
    assert_eq!(client.clean_expired_connections(300 * NANOS_PER_SECOND).len(), 0);
    assert_eq!(client.clean_expired_connections(301 * NANOS_PER_SECOND).len(), 1);
    let removed = client.poll_network_connections(&vec![Err(IoError::other("refused"))]);
    assert_eq!(removed.len(), 1);
    assert_eq!(client.router().len(), 0);
}
