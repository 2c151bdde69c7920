use gnirehtet::adb::TargetOs;
use gnirehtet::detect::{
    detect_mtu, detect_system_dns, effective_serial, name_server_source, read_mtu,
    read_only_device, read_servers, route_query, NameServerSource, DEFAULT_MTU, MIN_MTU,
};
use gnirehtet::execution_error::{ExitStatus, Output};
use gnirehtet::io_error::IoError;

fn listing(code: i32, stdout: &[u8]) -> Result<Output, IoError> {
    Ok(Output {
        status: ExitStatus { code: Some(code) },
        stdout: stdout.to_vec(),
        stderr: Vec::new(),
    })
}

#[test]
fn systems_tell_their_name_servers_in_different_places() {
    match name_server_source(TargetOs::Linux) {
        NameServerSource::File(path) => assert_eq!(path, "/etc/resolv.conf"),
        _ => panic!("there is a file"),
    }
    match name_server_source(TargetOs::MacOs) {
        NameServerSource::Tool(cmd) => {
            assert_eq!(cmd.command, "scutil");
            assert_eq!(cmd.args, ["--dns"]);
        }
        _ => panic!("there is a tool"),
    }
    match name_server_source(TargetOs::Windows) {
        NameServerSource::Tool(cmd) => {
            assert_eq!(cmd.command, "powershell");
            assert_eq!(
                cmd.args,
                ["-Command", "(Get-DnsClientServerAddress).ServerAddresses"]
            );
        }
        _ => panic!("there is a tool"),
    }
}

#[test]
fn the_default_route_is_asked_for_on_linux() {
    match route_query(TargetOs::Linux) {
        Some(cmd) => {
            assert_eq!(cmd.command, "ip");
            assert_eq!(cmd.args, ["route", "show", "default"]);
        }
        None => panic!("the route tells a packet size"),
    }
    assert!(route_query(TargetOs::MacOs).is_none());
    assert!(route_query(TargetOs::Windows).is_none());
}

#[test]
fn name_servers_are_read_from_resolv_conf() {
    let conf = "# comment\nnameserver 127.0.0.1\n  nameserver   192.168.1.1  \r\nnameserver ::1\n\
                search lan\nnameserver\t9.9.9.9\nnameserver 1.1.1.1";
    assert_eq!(
        read_servers(TargetOs::Linux, conf),
        ["192.168.1.1", "1.1.1.1"]
    );
}

#[test]
fn name_servers_are_read_from_scutil() {
    let output = "resolver #1\n  nameserver[0] : 192.168.1.1\n  nameserver[1]127.0.0.1\n  \
                  nameserver[2] 9.9.9.9 ] x\n  nameserver[3\n";
    assert_eq!(
        read_servers(TargetOs::MacOs, output),
        [": 192.168.1.1", "9.9.9.9"]
    );
}

#[test]
fn name_servers_are_read_from_windows() {
    let output = "127.0.0.1\r\n10.0.0.1\r\n0.0.0.0 ::1\r\nfec0:0:0:ffff::1\r\n";
    assert_eq!(
        read_servers(TargetOs::Windows, output),
        ["10.0.0.1", "fec0:0:0:ffff::1"]
    );
}

#[test]
fn there_is_always_a_name_server() {
    for os in [TargetOs::Linux, TargetOs::MacOs, TargetOs::Windows] {
        assert_eq!(detect_system_dns(os, None), ["8.8.8.8"]);
        assert_eq!(detect_system_dns(os, Some(b"")), ["8.8.8.8"]);
        assert_eq!(detect_system_dns(os, Some(b"127.0.0.1 ::1\n")), ["8.8.8.8"]);
    }
    assert_eq!(
        detect_system_dns(TargetOs::Linux, Some(b"nameserver 1.0.0.1\n")),
        ["1.0.0.1"]
    );
}

#[test]
fn invalid_text_spoils_a_file_but_not_the_output_of_a_tool() {
    assert_eq!(
        detect_system_dns(TargetOs::Linux, Some(b"\xff\nnameserver 1.0.0.1\n")),
        ["8.8.8.8"]
    );
    assert_eq!(
        detect_system_dns(TargetOs::Windows, Some(b"1.0.0.1 \xff")),
        ["1.0.0.1", "\u{fffd}"]
    );
    assert_eq!(
        detect_system_dns(TargetOs::Linux, Some("# \u{e9}\nnameserver 1.0.0.1".as_bytes())),
        ["1.0.0.1"]
    );
}

#[test]
fn the_packet_size_follows_the_word_mtu() {
    assert_eq!(read_mtu("default via 192.168.1.1 dev eth0 proto dhcp mtu 1500"), 1500);
    assert_eq!(read_mtu("default via 192.168.1.1 dev eth0 mtu 9000 metric 100"), 9000);
    assert_eq!(read_mtu("default dev eth0 mtu1400"), 1400);
}

#[test]
fn the_packet_size_is_large_enough() {
    assert_eq!(MIN_MTU, 1280);
    assert_eq!(read_mtu("default mtu 576"), 1280);
    assert_eq!(read_mtu("default mtu 1280"), 1280);
    assert_eq!(read_mtu("default mtu 0"), 1280);
}

#[test]
fn the_packet_size_has_a_default() {
    assert_eq!(DEFAULT_MTU, 16384);
    assert_eq!(read_mtu(""), DEFAULT_MTU);
    assert_eq!(read_mtu("default via 192.168.1.1 dev eth0"), DEFAULT_MTU);
    assert_eq!(read_mtu("default mtu"), DEFAULT_MTU);
    assert_eq!(read_mtu("default mtu 65536"), DEFAULT_MTU);
    assert_eq!(read_mtu("default mtu lock"), DEFAULT_MTU);
    assert_eq!(read_mtu("default mtu x mtu 1400"), 1400);
}

#[test]
fn only_linux_tells_a_packet_size() {
    let route: &[u8] = b"default dev eth0 mtu 1500 \xff";
    assert_eq!(detect_mtu(TargetOs::Linux, Some(route)), 1500);
    assert_eq!(detect_mtu(TargetOs::Linux, None), DEFAULT_MTU);
    assert_eq!(detect_mtu(TargetOs::MacOs, Some(route)), DEFAULT_MTU);
    assert_eq!(detect_mtu(TargetOs::Windows, Some(route)), DEFAULT_MTU);
}

#[test]
fn a_single_ready_device_is_found() {
    let title = "List of devices attached\n";
    let found = |rest: &str| read_only_device(&format!("{}{}", title, rest));
    assert_eq!(found("S1\tdevice\n"), Some("S1".to_string()));
    assert_eq!(found("S1\tdevice\nS2\tunauthorized\n"), Some("S1".to_string()));
    assert_eq!(found("S1\toffline\nS2 device product:x\n\n"), Some("S2".to_string()));
    assert_eq!(found("S1\tdevice\nS2\tdevice\n"), None);
    assert_eq!(found("S1\toffline\n"), None);
    assert_eq!(found("S1\n"), None);
    assert_eq!(found(""), None);
    assert_eq!(read_only_device(""), None);
    assert_eq!(read_only_device("S1 device"), None);
}

#[test]
fn a_serial_that_was_asked_for_is_not_looked_up() {
    let one = listing(0, b"List of devices attached\nS1\tdevice\n");
    assert_eq!(effective_serial(Some("S9"), &one), Some("S9".to_string()));
    assert_eq!(effective_serial(None, &one), Some("S1".to_string()));
    let failed = listing(1, b"List of devices attached\nS1\tdevice\n");
    assert_eq!(effective_serial(None, &failed), None);
    assert_eq!(effective_serial(None, &Err(IoError::other("not found"))), None);
    let odd = listing(0, b"\xff\nS\xff\tdevice\n");
    assert_eq!(effective_serial(None, &odd), Some("S\u{fffd}".to_string()));
}
