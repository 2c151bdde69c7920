use gnirehtet::io_error::ErrorKind;
use gnirehtet::relay::client_channel::{ClientChannel, SharedBuffer};
use gnirehtet::relay::datagram_buffer::DatagramBuffer;
use gnirehtet::relay::ip_packet::{IpHeaderData, IpPacket, Protocol};
use gnirehtet::relay::net::IpAddr;
use gnirehtet::relay::stream_buffer::StreamBuffer;

fn packet(raw: &[u8]) -> IpPacket {
    IpPacket {
        raw: raw.to_vec(),
        valid: true,
        ip_header: IpHeaderData {
            protocol: Protocol::Udp,
            source: IpAddr::V4(1),
            destination: IpAddr::V4(2),
        },
        transport_header: None,
        payload: None,
    }
}

#[test]
fn packets_wait_in_order() {
    let mut channel = ClientChannel::new(SharedBuffer::new(10));
    assert!(!channel.has_outgoing());
    assert!(channel.send_to_client(&packet(&[1, 2, 3])).is_ok());
    assert!(channel.send_to_client(&packet(&[4, 5])).is_ok());
    assert!(channel.has_outgoing());
    assert_eq!(channel.drain(), [1, 2, 3, 4, 5]);
    assert!(!channel.has_outgoing());
    assert_eq!(channel.drain(), []);
}

#[test]
fn a_packet_that_does_not_fit_is_refused_whole() {
    let mut channel = ClientChannel::new(SharedBuffer::new(4));
    assert!(channel.send_to_client(&packet(&[1, 2, 3])).is_ok());
    let refused = channel.send_to_client(&packet(&[4, 5])).unwrap_err();
    assert_eq!(refused.kind, ErrorKind::WouldBlock);
    assert_eq!(refused.message, "Client buffer full");
    // a smaller one still fits, to the last byte
    assert!(channel.send_to_client(&packet(&[6])).is_ok());
    assert!(channel.send_to_client(&packet(&[])).is_ok());
    assert_eq!(channel.drain(), [1, 2, 3, 6]);
    assert!(channel.send_to_client(&packet(&[7, 8, 9, 10])).is_ok());
}

#[test]
fn a_buffer_in_use_takes_and_gives_nothing() {
    let mut channel = ClientChannel::new(SharedBuffer::new(4));
    assert!(channel.send_to_client(&packet(&[1])).is_ok());
    channel.set_busy(true);
    let refused = channel.send_to_client(&packet(&[2])).unwrap_err();
    assert_eq!(refused.kind, ErrorKind::WouldBlock);
    assert_eq!(refused.message, "client buffer busy");
    assert!(!channel.has_outgoing());
    assert_eq!(channel.drain(), []);
    channel.set_busy(false);
    assert_eq!(channel.drain(), [1]);
}

#[test]
fn a_stream_buffer_counts_its_bytes() {
    let mut buffer = StreamBuffer::new(5);
    assert!(buffer.is_empty());
    buffer.read_from(&[1, 2, 3]);
    assert!(!buffer.is_empty());
    assert_eq!(buffer.remaining(), 2);
    assert_eq!(buffer.drain(), [1, 2, 3]);
    assert_eq!(buffer.remaining(), 5);
}

#[test]
fn datagrams_keep_their_boundaries() {
    let mut buffer = DatagramBuffer::new(5);
    assert!(buffer.is_empty());
    assert!(buffer.read_from(&[1, 2]).is_ok());
    assert!(buffer.read_from(&[]).is_ok());
    assert!(buffer.read_from(&[3]).is_ok());
    let refused = buffer.read_from(&[4, 5, 6]).unwrap_err();
    assert_eq!(refused.kind, ErrorKind::WouldBlock);
    assert_eq!(refused.message, "Datagram buffer is full");
    assert!(buffer.read_from(&[7, 8]).is_ok());
    assert_eq!(buffer.take(), Some(vec![1, 2]));
    assert_eq!(buffer.take(), Some(vec![]));
    assert_eq!(buffer.take(), Some(vec![3]));
    assert_eq!(buffer.take(), Some(vec![7, 8]));
    assert_eq!(buffer.take(), None);
    assert!(buffer.is_empty());
}
