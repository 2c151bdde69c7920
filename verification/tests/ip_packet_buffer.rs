use gnirehtet::relay::client::Client;
use gnirehtet::relay::ip_packet_buffer::IpPacketBuffer;
use gnirehtet::relay::udp_connection::UdpConnection;

fn ipv4(length: u8, fill: u8) -> Vec<u8> {
    let mut packet = vec![fill; length as usize];
    packet[0] = 0x45;
    packet[2] = 0;
    packet[3] = length;
    packet
}

fn ipv6(payload: u16, fill: u8) -> Vec<u8> {
    let mut packet = vec![fill; 40 + payload as usize];
    packet[0] = 0x60;
    packet[4] = (payload >> 8) as u8;
    packet[5] = payload as u8;
    packet
}

#[test]
fn complete_packets_are_cut_out() {
    let packets = vec![ipv4(20, 1), ipv6(0, 2), ipv6(300, 3), ipv4(200, 4)];
    let mut buffer = IpPacketBuffer::new();
    assert_eq!(buffer.read_from(&packets.concat()), packets);
    assert!(buffer.read_from(&[]).is_empty());
}

#[test]
fn it_makes_no_difference_where_a_stream_is_split() {
    let packets = vec![ipv4(25, 1), ipv6(3, 2), ipv4(20, 3)];
    let mut stream = packets.concat();
    stream.extend([0x45, 0, 0, 30, 9]);
    for cut in 0..=stream.len() {
        let mut buffer = IpPacketBuffer::new();
        let mut read = buffer.read_from(&stream[..cut]);
        read.extend(buffer.read_from(&stream[cut..]));
        assert_eq!(read, packets);
        // the incomplete packet waits for its other bytes
        let mut last = vec![0x45, 0, 0, 30, 9];
        last.extend(vec![7; 25]);
        assert_eq!(buffer.read_from(&[7; 25]), [last]);
    }
}

#[test]
fn a_stream_is_read_byte_by_byte() {
    let packets = vec![ipv6(1, 5), ipv4(21, 6)];
    let mut buffer = IpPacketBuffer::new();
    let mut read = Vec::new();
    for byte in packets.concat() {
        read.extend(buffer.read_from(&[byte]));
    }
    assert_eq!(read, packets);
}

#[test]
fn what_cannot_be_read_is_one_packet() {
    let mut buffer = IpPacketBuffer::new();
    assert_eq!(buffer.read_from(&[0x12, 1, 2]), [vec![0x12, 1, 2]]);
    // an IPv4 packet that is shorter than its header
    assert_eq!(buffer.read_from(&[0x45, 0, 0, 19, 8]), [vec![0x45, 0, 0, 19, 8]]);
    assert_eq!(buffer.read_from(&ipv4(20, 1)), [ipv4(20, 1)]);
}

#[test]
fn a_client_keeps_the_bytes_of_an_incomplete_packet() {
    let mut client: Client<UdpConnection> = match Client::create(1, None) {
        Ok(client) => client,
        Err(_) => panic!("a client can always be created"),
    };
    let packet = ipv4(30, 3);
    assert!(client.read_device_data(&packet[..12]).is_empty());
    assert!(client.read_device_data(&[]).is_empty());
    assert_eq!(client.read_device_data(&packet[12..]), [packet]);
}
