use gnirehtet::relay::connection::{ConnectionId, LOCALHOST_FORWARD_V4, LOCALHOST_V4};
use gnirehtet::relay::ip_packet::{IpHeaderData, Protocol, TransportHeaderData};
use gnirehtet::relay::net::{push_socket_addr, IpAddr, SocketAddr};

fn id(label: &str, source: IpAddr, destination: IpAddr) -> ConnectionId {
    ConnectionId::from_headers(
        &IpHeaderData {
            protocol: Protocol::Udp,
            source,
            destination,
        },
        &TransportHeaderData {
            source_port: 5000,
            destination_port: 53,
        },
        label,
    )
}

fn print(addr: SocketAddr) -> String {
    let mut out = String::new();
    push_socket_addr(&mut out, addr);
    out
}

#[test]
fn ipv4_addresses_are_printed_in_dotted_decimal() {
    for (bits, text) in [
        (0, "0.0.0.0"),
        (0x0a00_0202, "10.0.2.2"),
        (0x7f00_0001, "127.0.0.1"),
        (0x0102_0304, "1.2.3.4"),
        (0xffff_ffff, "255.255.255.255"),
    ] {
        for port in [0, 53, 65535] {
            let printed = print(SocketAddr { ip: IpAddr::V4(bits), port });
            assert_eq!(printed, format!("{}:{}", text, port));
        }
    }
}

#[test]
fn ipv6_addresses_are_printed_in_their_shortest_form() {
    for (bits, text) in [
        (0x0000_0000_0000_0000_0000_0000_0000_0000, "::"),
        (0x0000_0000_0000_0000_0000_0000_0000_0001, "::1"),
        (0x0001_0000_0000_0000_0000_0000_0000_0000, "1::"),
        (0xfe80_0000_0000_0000_0000_0000_0000_0001, "fe80::1"),
        (0x2001_0db8_0000_0000_0008_0800_200c_417a, "2001:db8::8:800:200c:417a"),
        (0x0001_0002_0003_0004_0005_0006_0007_0008, "1:2:3:4:5:6:7:8"),
        (0x0001_0000_0003_0004_0005_0006_0007_0008, "1:0:3:4:5:6:7:8"),
        (0x0000_0000_0003_0000_0000_0000_0007_0008, "0:0:3::7:8"),
        (0x0000_0000_0003_0000_0000_0006_0007_0008, "::3:0:0:6:7:8"),
        (0x0001_0000_0000_0004_0005_0000_0000_0008, "1::4:5:0:0:8"),
        (0x0000_0000_0000_0000_0000_ffff_c0a8_0101, "::ffff:192.168.1.1"),
        (0x0000_0000_0000_0000_0000_0000_c0a8_0101, "::c0a8:101"),
        (0x0000_0000_0000_0000_0000_fffe_0102_0304, "::fffe:102:304"),
        (0x0001_0000_0000_0000_0000_ffff_0102_0304, "1::ffff:102:304"),
        (0xffff_ffff_ffff_ffff_ffff_ffff_ffff_ffff, "ffff:ffff:ffff:ffff:ffff:ffff:ffff:ffff"),
    ] {
        let printed = print(SocketAddr { ip: IpAddr::V6(bits), port: 443 });
        assert_eq!(printed, format!("[{}]:443", text));
    }
}

#[test]
fn a_flow_is_printed_with_the_label_of_its_client() {
    let source = IpAddr::V4(0x0a00_0002);
    let destination = IpAddr::V4(0x0808_0808);
    assert_eq!(id("", source, destination).to_string(), "10.0.0.2:5000 -> 8.8.8.8:53");
    assert_eq!(
        id("#1 (S1)", source, destination).to_string(),
        "[Client #1 (S1)] 10.0.0.2:5000 -> 8.8.8.8:53"
    );
    assert_eq!(
        id("", IpAddr::V6(1), IpAddr::V6(2)).to_string(),
        "[::1]:5000 -> [::2]:53"
    );
}

#[test]
fn flows_are_told_apart() {
    let source = IpAddr::V4(1);
    let destination = IpAddr::V4(2);
    let flow = id("#1", source, destination);
    assert!(flow == flow.clone());
    assert!(flow == id("#1", source, destination));
    assert!(flow != id("#2", source, destination));
    assert!(flow != id("#1", destination, destination));
    assert!(flow != id("#1", source, source));
    assert!(flow != id("#1", source, IpAddr::V6(2)));
    assert_eq!(flow.protocol(), Protocol::Udp);
}

#[test]
fn only_the_address_of_the_machine_is_rewritten() {
    assert_eq!(LOCALHOST_FORWARD_V4, 0x0a00_0202);
    assert_eq!(LOCALHOST_V4, 0x7f00_0001);
    let to = |destination: IpAddr| id("", IpAddr::V4(1), destination).rewritten_destination();
    assert_eq!(
        to(IpAddr::V4(0x0a00_0202)),
        SocketAddr { ip: IpAddr::V4(0x7f00_0001), port: 53 }
    );
    for ip in [
        IpAddr::V4(0x0a00_0203),
        IpAddr::V4(0x7f00_0001),
        IpAddr::V6(0x0a00_0202),
    ] {
        assert_eq!(to(ip), SocketAddr { ip, port: 53 });
    }
}
