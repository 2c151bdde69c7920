//! Reading the answers of system tools: name servers, packet size, devices.

use vstd::prelude::*;

use crate::adb::TargetOs;
use crate::execution_error::{Cmd, CommandLine, Output};
use crate::io_error::IoError;
use crate::text::{
    from_utf8, from_utf8_lossy, lines, parse_u16, same_text, second_field, strip_prefix, to_chars,
    to_text, trim, words,
};
#[allow(unused_imports)]
use crate::text::{
    contents, decimal, law_decimal_round_trip, law_lines_end_at_newlines, law_prefix_is_removed,
    law_second_field_is_between_separators, law_trimming_keeps_the_middle,
    law_words_end_at_whitespace, lines_of, optional_str, optional_text, parsed_u16,
    second_field_of, texts, trimmed, utf8_lossy, whitespace, without_prefix, words_of,
};

verus! {

/// The packet size where the system does not tell one.
pub const DEFAULT_MTU: u16 = 0x4000;

/// The smallest packet size, which IPv6 asks for.
pub const MIN_MTU: u16 = 1280;

/// Where a system tells its name servers.
pub enum NameServerSource {
    /// In the file with this path.
    File(String),
    /// In the output of this command.
    Tool(Cmd),
}

/// Where a system tells its name servers.
pub enum NameServerPlace {
    File(Seq<char>),
    Tool(CommandLine),
}

impl View for NameServerSource {
    type V = NameServerPlace;

    open spec fn view(&self) -> NameServerPlace {
        match self {
            NameServerSource::File(path) => NameServerPlace::File(path@),
            NameServerSource::Tool(cmd) => NameServerPlace::Tool(cmd@),
        }
    }
}

/// Where a system tells its name servers.
pub open spec fn name_server_place(os: TargetOs) -> NameServerPlace {
    match os {
        TargetOs::Linux => NameServerPlace::File("/etc/resolv.conf"@),
        TargetOs::MacOs => NameServerPlace::Tool(
            CommandLine { command: "scutil"@, args: seq!["--dns"@] },
        ),
        TargetOs::Windows => NameServerPlace::Tool(
            CommandLine {
                command: "powershell"@,
                args: seq!["-Command"@, "(Get-DnsClientServerAddress).ServerAddresses"@],
            },
        ),
    }
}

/// Tells where to read the name servers of a system.
pub fn name_server_source(os: TargetOs) -> (source: NameServerSource)
    ensures
        source@ == name_server_place(os),
{
    let mut args: Vec<String> = Vec::new();
    match os {
        TargetOs::Linux => NameServerSource::File("/etc/resolv.conf".to_string()),
        TargetOs::MacOs => {
            args.push("--dns".to_string());
            let cmd = Cmd::new("scutil".to_string(), args);
            assert(cmd@.args =~= seq!["--dns"@]);
            NameServerSource::Tool(cmd)
        },
        TargetOs::Windows => {
            args.push("-Command".to_string());
            args.push("(Get-DnsClientServerAddress).ServerAddresses".to_string());
            let cmd = Cmd::new("powershell".to_string(), args);
            assert(cmd@.args =~= seq![
                "-Command"@,
                "(Get-DnsClientServerAddress).ServerAddresses"@,
            ]);
            NameServerSource::Tool(cmd)
        },
    }
}

/// The command line that asks a system for its default route, where that tells a
/// packet size.
pub fn route_query(os: TargetOs) -> (cmd: Option<Cmd>)
    ensures
        match cmd {
            Some(c) => os == TargetOs::Linux && c@ == (CommandLine {
                command: "ip"@,
                args: seq!["route"@, "show"@, "default"@],
            }),
            None => os != TargetOs::Linux,
        },
{
    match os {
        TargetOs::Linux => {
            let mut args: Vec<String> = Vec::new();
            args.push("route".to_string());
            args.push("show".to_string());
            args.push("default".to_string());
            let cmd = Cmd::new("ip".to_string(), args);
            assert(cmd@.args =~= seq!["route"@, "show"@, "default"@]);
            Some(cmd)
        },
        _ => None,
    }
}

/// An address that a device can use for a name server: not empty, and not the
/// machine itself.
pub open spec fn usable(server: Seq<char>) -> bool {
    server.len() > 0 && server != "127.0.0.1"@ && server != "::1"@
}

/// The name server in a line of `/etc/resolv.conf`.
pub open spec fn resolv_conf_server(line: Seq<char>) -> Option<Seq<char>> {
    match without_prefix(trimmed(line), "nameserver "@) {
        Some(rest) => {
            let server = trimmed(rest);
            if usable(server) {
                Some(server)
            } else {
                None
            }
        },
        None => None,
    }
}

/// The name server in a line of the output of `scutil --dns`: what follows the
/// bracketed number.
pub open spec fn scutil_server(line: Seq<char>) -> Option<Seq<char>> {
    match without_prefix(trimmed(line), "nameserver["@) {
        Some(rest) => match second_field_of(rest, ']') {
            Some(field) => {
                let server = trimmed(field);
                if usable(server) {
                    Some(server)
                } else {
                    None
                }
            },
            None => None,
        },
        None => None,
    }
}

/// The name server in a word of the server addresses of Windows.
pub open spec fn windows_server(word: Seq<char>) -> Option<Seq<char>> {
    if usable(word) && word != "0.0.0.0"@ {
        Some(word)
    } else {
        None
    }
}

/// The name servers that the configuration of a system tells.
pub open spec fn configured_servers(os: TargetOs, configuration: Seq<char>) -> Seq<Seq<char>> {
    match os {
        TargetOs::Linux => lines_of(configuration).filter_map(
            |line: Seq<char>| resolv_conf_server(line),
        ),
        TargetOs::MacOs => lines_of(configuration).filter_map(
            |line: Seq<char>| scutil_server(line),
        ),
        TargetOs::Windows => words_of(configuration).filter_map(
            |word: Seq<char>| windows_server(word),
        ),
    }
}

/// The name servers of a system with this configuration, or the fallback where
/// it tells none.
pub open spec fn servers_or_fallback(os: TargetOs, configuration: Option<Seq<char>>) -> Seq<
    Seq<char>,
> {
    match configuration {
        Some(text) => if configured_servers(os, text).len() > 0 {
            configured_servers(os, text)
        } else {
            seq!["8.8.8.8"@]
        },
        None => seq!["8.8.8.8"@],
    }
}

/// The text of a system's configuration. A file that is not valid UTF-8 counts
/// as none; the output of a tool is always read as far as that goes.
pub open spec fn configuration_text(os: TargetOs, bytes: Seq<u8>) -> Option<Seq<char>> {
    if os != TargetOs::Linux {
        Some(utf8_lossy(bytes))
    } else if vstd::utf8::valid_utf8(bytes) {
        Some(vstd::utf8::decode_utf8(bytes))
    } else {
        None
    }
}

fn is_usable(server: &[char]) -> (r: bool)
    ensures
        r == usable(server@),
{
    proof {
        reveal_strlit("127.0.0.1");
        reveal_strlit("::1");
    }
    server.len() > 0 && !same_text(server, "127.0.0.1") && !same_text(server, "::1")
}

fn server_in_piece(os: TargetOs, piece: &[char]) -> (r: Option<String>)
    ensures
        optional_text(r) == (match os {
            TargetOs::Linux => resolv_conf_server(piece@),
            TargetOs::MacOs => scutil_server(piece@),
            TargetOs::Windows => windows_server(piece@),
        }),
{
    let server: &[char] = match os {
        TargetOs::Linux => match strip_prefix(trim(piece), "nameserver ") {
            Some(rest) => trim(rest),
            None => {
                return None;
            },
        },
        TargetOs::MacOs => match strip_prefix(trim(piece), "nameserver[") {
            Some(rest) => match second_field(rest, ']') {
                Some(field) => trim(field),
                None => {
                    return None;
                },
            },
            None => {
                return None;
            },
        },
        TargetOs::Windows => {
            if same_text(piece, "0.0.0.0") {
                return None;
            }
            piece
        },
    };
    if is_usable(server) {
        Some(to_text(server))
    } else {
        None
    }
}

/// Reads the name servers out of the configuration of a system.
pub fn read_servers(os: TargetOs, configuration: &str) -> (servers: Vec<String>)
    ensures
        texts(servers@) == configured_servers(os, configuration@),
{
    let chars = to_chars(configuration);
    let pieces = match os {
        TargetOs::Windows => words(chars.as_slice()),
        _ => lines(chars.as_slice()),
    };
    let ghost all = contents(pieces@);
    let ghost pick: spec_fn(Seq<char>) -> Option<Seq<char>> = match os {
        TargetOs::Linux => |line: Seq<char>| resolv_conf_server(line),
        TargetOs::MacOs => |line: Seq<char>| scutil_server(line),
        TargetOs::Windows => |word: Seq<char>| windows_server(word),
    };
    let mut servers: Vec<String> = Vec::new();
    let mut i: usize = 0;
    assert(texts(servers@) =~= all.take(0).filter_map(pick));
    while i < pieces.len()
        invariant
            i <= pieces@.len(),
            all == contents(pieces@),
            pick == (match os {
                TargetOs::Linux => |line: Seq<char>| resolv_conf_server(line),
                TargetOs::MacOs => |line: Seq<char>| scutil_server(line),
                TargetOs::Windows => |word: Seq<char>| windows_server(word),
            }),
            texts(servers@) == all.take(i as int).filter_map(pick),
        decreases pieces@.len() - i,
    {
        let ghost before = texts(servers@);
        proof {
            all.lemma_filter_map_take_succ(pick, i as int);
        }
        let server = server_in_piece(os, pieces[i].as_slice());
        assert(optional_text(server) == pick(all[i as int]));
        match server {
            Some(server) => {
                servers.push(server);
                assert(texts(servers@) =~= before + seq![server@]);
            },
            None => {},
        }
        assert(texts(servers@) =~= all.take(i + 1).filter_map(pick));
        i = i + 1;
    }
    assert(all.take(i as int) =~= all);
    assert(texts(servers@) =~= configured_servers(os, configuration@));
    servers
}

/// Tells the name servers of a system from its configuration: the content of
/// `/etc/resolv.conf`, or the output of the tool that tells them. There is none
/// where it could not be had.
pub fn detect_system_dns(os: TargetOs, configuration: Option<&[u8]>) -> (servers: Vec<String>)
    ensures
        texts(servers@) == servers_or_fallback(
            os,
            match configuration {
                Some(bytes) => configuration_text(os, bytes@),
                None => None,
            },
        ),
{
    let text = match configuration {
        Some(bytes) => match os {
            TargetOs::Linux => from_utf8(bytes),
            _ => Some(from_utf8_lossy(bytes)),
        },
        None => None,
    };
    if let Some(text) = text {
        let servers = read_servers(os, text.as_str());
        if servers.len() > 0 {
            return servers;
        }
    }
    let mut fallback: Vec<String> = Vec::new();
    fallback.push("8.8.8.8".to_string());
    assert(texts(fallback@) =~= seq!["8.8.8.8"@]);
    fallback
}

proof fn filter_map_picks(
    pieces: Seq<Seq<char>>,
    pick: spec_fn(Seq<char>) -> Option<Seq<char>>,
    property: spec_fn(Seq<char>) -> bool,
)
    requires
        forall|piece: Seq<char>, server: Seq<char>| #[trigger]
            pick(piece) == Some(server) ==> #[trigger] property(server),
    ensures
        forall|i: int|
            0 <= i < pieces.filter_map(pick).len() ==> property(
                #[trigger] pieces.filter_map(pick)[i],
            ),
    decreases pieces.len(),
{
    reveal_with_fuel(Seq::filter_map, 2);
    if pieces.len() > 0 {
        filter_map_picks(pieces.drop_last(), pick, property);
        let front = pieces.drop_last().filter_map(pick);
        if let Some(server) = pick(pieces.last()) {
            assert(property(server));
            assert(pieces.filter_map(pick) =~= front.push(server));
        }
    }
}

/// There is always a name server, and never one that is empty or this machine
/// itself.
pub proof fn law_servers_are_usable(os: TargetOs, configuration: Option<Seq<char>>)
    ensures
        servers_or_fallback(os, configuration).len() > 0,
        forall|i: int|
            0 <= i < servers_or_fallback(os, configuration).len() ==> usable(
                #[trigger] servers_or_fallback(os, configuration)[i],
            ),
{
    reveal_strlit("8.8.8.8");
    reveal_strlit("127.0.0.1");
    reveal_strlit("::1");
    assert(usable("8.8.8.8"@)) by {
        assert("8.8.8.8"@.len() == 7);
        assert("127.0.0.1"@.len() == 9);
        assert("::1"@.len() == 3);
    }
    let property = |server: Seq<char>| usable(server);
    if let Some(text) = configuration {
        match os {
            TargetOs::Linux => {
                filter_map_picks(
                    lines_of(text),
                    |line: Seq<char>| resolv_conf_server(line),
                    property,
                );
            },
            TargetOs::MacOs => {
                filter_map_picks(
                    lines_of(text),
                    |line: Seq<char>| scutil_server(line),
                    property,
                );
            },
            TargetOs::Windows => {
                filter_map_picks(
                    words_of(text),
                    |word: Seq<char>| windows_server(word),
                    property,
                );
            },
        }
        assert forall|i: int| 0 <= i < configured_servers(os, text).len() implies usable(
            #[trigger] configured_servers(os, text)[i],
        ) by {
            assert(property(configured_servers(os, text)[i]));
        }
    }
}

/// The packet size that the words of a route tell at a position: the number
/// after the word `mtu`, or the one that is attached to it.
pub open spec fn mtu_at(route: Seq<Seq<char>>, i: int) -> Option<u16> {
    match without_prefix(route[i], "mtu"@) {
        Some(rest) => if rest.len() == 0 && i + 1 < route.len() {
            parsed_u16(route[i + 1])
        } else {
            parsed_u16(trimmed(rest))
        },
        None => None,
    }
}

/// The first packet size that the words of a route tell from a position on.
pub open spec fn mtu_from(route: Seq<Seq<char>>, i: int) -> Option<u16>
    decreases route.len() - i,
{
    if i >= route.len() {
        None
    } else if mtu_at(route, i) is Some {
        mtu_at(route, i)
    } else {
        mtu_from(route, i + 1)
    }
}

/// The packet size for a default route like this.
pub open spec fn route_mtu(route: Seq<char>) -> u16 {
    match mtu_from(words_of(route), 0) {
        Some(mtu) => if mtu < MIN_MTU {
            MIN_MTU
        } else {
            mtu
        },
        None => DEFAULT_MTU,
    }
}

/// Reads the packet size out of a default route, as in
/// `default via X dev Y ... mtu N`.
pub fn read_mtu(route: &str) -> (mtu: u16)
    ensures
        mtu == route_mtu(route@),
{
    let chars = to_chars(route);
    let all = words(chars.as_slice());
    let ghost route_words = contents(all@);
    let mut i: usize = 0;
    while i < all.len()
        invariant
            i <= all@.len(),
            route_words == contents(all@),
            route_words == words_of(route@),
            mtu_from(route_words, 0) == mtu_from(route_words, i as int),
        decreases all@.len() - i,
    {
        assert(route_words[i as int] == all@[i as int]@);
        if let Some(rest) = strip_prefix(all[i].as_slice(), "mtu") {
            let number = if rest.len() == 0 && i + 1 < all.len() {
                assert(route_words[i + 1] == all@[i + 1]@);
                parse_u16(all[i + 1].as_slice())
            } else {
                parse_u16(trim(rest))
            };
            if let Some(mtu) = number {
                return if mtu < MIN_MTU {
                    MIN_MTU
                } else {
                    mtu
                };
            }
        }
        i = i + 1;
    }
    DEFAULT_MTU
}

/// The packet size for a system with this default route.
pub open spec fn system_mtu(os: TargetOs, route: Option<Seq<u8>>) -> u16 {
    match route {
        Some(bytes) => if os == TargetOs::Linux {
            route_mtu(utf8_lossy(bytes))
        } else {
            DEFAULT_MTU
        },
        None => DEFAULT_MTU,
    }
}

/// Tells the packet size to use from the default route, where the system tells
/// one.
pub fn detect_mtu(os: TargetOs, route: Option<&[u8]>) -> (mtu: u16)
    ensures
        mtu == system_mtu(
            os,
            match route {
                Some(bytes) => Some(bytes@),
                None => None,
            },
        ),
{
    match route {
        Some(bytes) => match os {
            TargetOs::Linux => {
                let text = from_utf8_lossy(bytes);
                read_mtu(text.as_str())
            },
            _ => DEFAULT_MTU,
        },
        None => DEFAULT_MTU,
    }
}

/// The packet size is never below what IPv6 asks for.
pub proof fn law_mtu_is_large_enough(route: Seq<char>)
    ensures
        route_mtu(route) >= MIN_MTU,
{
}

/// The serial in a line of the output of `adb devices`, where the device is
/// ready.
pub open spec fn ready_device(line: Seq<char>) -> Option<Seq<char>> {
    let parts = words_of(line);
    if parts.len() >= 2 && parts[1] == "device"@ {
        Some(parts[0])
    } else {
        None
    }
}

/// The serials of the devices that are ready. The first line is a title.
pub open spec fn ready_devices(listing: Seq<char>) -> Seq<Seq<char>> {
    let all = lines_of(listing);
    if all.len() == 0 {
        Seq::empty()
    } else {
        all.skip(1).filter_map(|line: Seq<char>| ready_device(line))
    }
}

/// The serial of the device that is ready, where there is one and no other.
pub open spec fn only_device(listing: Seq<char>) -> Option<Seq<char>> {
    if ready_devices(listing).len() == 1 {
        Some(ready_devices(listing)[0])
    } else {
        None
    }
}

/// Reads the serial of the only device that is ready.
pub fn read_only_device(listing: &str) -> (serial: Option<String>)
    ensures
        optional_text(serial) == only_device(listing@),
{
    let chars = to_chars(listing);
    let all = lines(chars.as_slice());
    if all.len() == 0 {
        assert(contents(all@).len() == 0);
        return None;
    }
    let ghost rest = contents(all@).skip(1);
    let ghost pick = |line: Seq<char>| ready_device(line);
    let mut devices: Vec<String> = Vec::new();
    let mut i: usize = 1;
    assert(texts(devices@) =~= rest.take(0).filter_map(pick));
    while i < all.len()
        invariant
            1 <= i <= all@.len(),
            rest == contents(all@).skip(1),
            pick == (|line: Seq<char>| ready_device(line)),
            texts(devices@) == rest.take(i - 1).filter_map(pick),
        decreases all@.len() - i,
    {
        let ghost before = texts(devices@);
        proof {
            rest.lemma_filter_map_take_succ(pick, i - 1);
        }
        let parts = words(all[i].as_slice());
        assert(rest[i - 1] == all@[i as int]@);
        let ghost part_texts = contents(parts@);
        if parts.len() >= 2 && same_text(parts[1].as_slice(), "device") {
            assert(part_texts[1] == parts@[1]@);
            assert(part_texts[0] == parts@[0]@);
            let serial = to_text(parts[0].as_slice());
            devices.push(serial);
            assert(texts(devices@) =~= before + seq![serial@]);
        } else {
            assert(part_texts.len() >= 2 ==> part_texts[1] == parts@[1]@);
        }
        assert(texts(devices@) =~= rest.take(i as int).filter_map(pick));
        i = i + 1;
    }
    assert(rest.take(i - 1) =~= rest);
    let ghost found = texts(devices@);
    if devices.len() == 1 {
        assert(found[0] == devices@[0]@);
        Some(devices[0].clone())
    } else {
        None
    }
}

/// The serial of the device that a command is for: the one that was asked for,
/// or else the only one that `adb devices` lists as ready.
pub open spec fn target_serial(
    serial: Option<Seq<char>>,
    listing: Result<Output, IoError>,
) -> Option<Seq<char>> {
    match serial {
        Some(s) => Some(s),
        None => match listing {
            Ok(output) => if output.status.succeeded() {
                only_device(utf8_lossy(output.stdout@))
            } else {
                None
            },
            Err(_) => None,
        },
    }
}

/// Tells the serial of the device that a command is for. It stays unknown where
/// there is no device, or more than one.
pub fn effective_serial(serial: Option<&str>, listing: &Result<Output, IoError>) -> (r: Option<
    String,
>)
    ensures
        optional_text(r) == target_serial(optional_str(serial), *listing),
{
    if let Some(s) = serial {
        return Some(s.to_string());
    }
    match listing {
        Ok(output) => if output.status.success() {
            let text = from_utf8_lossy(output.stdout.as_slice());
            read_only_device(text.as_str())
        } else {
            None
        },
        Err(_) => None,
    }
}

proof fn filter_map_first(
    first: Seq<char>,
    rest: Seq<Seq<char>>,
    pick: spec_fn(Seq<char>) -> Option<Seq<char>>,
)
    ensures
        (seq![first] + rest).filter_map(pick) == (match pick(first) {
            Some(server) => seq![server],
            None => Seq::empty(),
        }) + rest.filter_map(pick),
    decreases rest.len(),
{
    let all = seq![first] + rest;
    let head = match pick(first) {
        Some(server) => seq![server],
        None => Seq::<Seq<char>>::empty(),
    };
    if rest.len() == 0 {
        Seq::lemma_filter_map_singleton(first, pick);
        assert(all =~= seq![first]);
        assert(head + rest.filter_map(pick) =~= head);
    } else {
        filter_map_first(first, rest.drop_last(), pick);
        assert(all.drop_last() =~= seq![first] + rest.drop_last());
        assert(all.last() == rest.last());
        assert(all.filter_map(pick) =~= head + rest.filter_map(pick));
    }
}

/// The lines of a configuration are read one by one: the servers of a text are
/// that of its first line, if it has one, before those of the lines that follow.
/// A carriage return at the end of the line is not part of it.
pub proof fn law_lines_are_read_one_by_one(line: Seq<char>, rest: Seq<char>)
    requires
        !line.contains('\n'),
    ensures
        ({
            let text = if line.len() > 0 && line.last() == '\r' {
                line.drop_last()
            } else {
                line
            };
            &&& configured_servers(TargetOs::Linux, line + seq!['\n'] + rest) == (
            match resolv_conf_server(text) {
                Some(server) => seq![server],
                None => Seq::empty(),
            }) + configured_servers(TargetOs::Linux, rest)
            &&& configured_servers(TargetOs::MacOs, line + seq!['\n'] + rest) == (
            match scutil_server(text) {
                Some(server) => seq![server],
                None => Seq::empty(),
            }) + configured_servers(TargetOs::MacOs, rest)
        }),
        configured_servers(TargetOs::Linux, Seq::empty()).len() == 0,
        configured_servers(TargetOs::MacOs, Seq::empty()).len() == 0,
        configured_servers(TargetOs::Windows, Seq::empty()).len() == 0,
{
    law_lines_end_at_newlines(line, rest);
    let text = if line.len() > 0 && line.last() == '\r' {
        line.drop_last()
    } else {
        line
    };
    filter_map_first(text, lines_of(rest), |l: Seq<char>| resolv_conf_server(l));
    filter_map_first(text, lines_of(rest), |l: Seq<char>| scutil_server(l));
    let none = lines_of(Seq::<char>::empty());
    assert(none.filter_map(|l: Seq<char>| resolv_conf_server(l)).len() == 0);
    assert(none.filter_map(|l: Seq<char>| scutil_server(l)).len() == 0);
    assert(words_of(Seq::<char>::empty()).filter_map(|w: Seq<char>| windows_server(w)).len() == 0);
}

/// The last line of a configuration counts also without a newline.
pub proof fn law_last_line_counts(line: Seq<char>)
    requires
        !line.contains('\n'),
        line.len() > 0,
    ensures
        configured_servers(TargetOs::Linux, line) == (match resolv_conf_server(line) {
            Some(server) => seq![server],
            None => Seq::empty(),
        }),
        configured_servers(TargetOs::MacOs, line) == (match scutil_server(line) {
            Some(server) => seq![server],
            None => Seq::empty(),
        }),
{
    law_lines_end_at_newlines(line, Seq::empty());
    Seq::lemma_filter_map_singleton(line, |l: Seq<char>| resolv_conf_server(l));
    Seq::lemma_filter_map_singleton(line, |l: Seq<char>| scutil_server(l));
}

/// On Windows every word is a server, but for the machine itself and the address
/// of all zeros.
pub proof fn law_windows_servers_are_words(word: Seq<char>, c: char, rest: Seq<char>)
    requires
        word.len() > 0,
        forall|i: int| 0 <= i < word.len() ==> !whitespace(#[trigger] word[i]),
        whitespace(c),
    ensures
        configured_servers(TargetOs::Windows, word + seq![c] + rest) == (if word != "127.0.0.1"@
            && word != "::1"@ && word != "0.0.0.0"@ {
            seq![word]
        } else {
            Seq::empty()
        }) + configured_servers(TargetOs::Windows, rest),
        configured_servers(TargetOs::Windows, seq![c] + rest) == configured_servers(
            TargetOs::Windows,
            rest,
        ),
        configured_servers(TargetOs::Windows, word) == (if word != "127.0.0.1"@ && word != "::1"@
            && word != "0.0.0.0"@ {
            seq![word]
        } else {
            Seq::empty()
        }),
{
    law_words_end_at_whitespace(word, c, rest);
    filter_map_first(word, words_of(rest), |w: Seq<char>| windows_server(w));
    Seq::lemma_filter_map_singleton(word, |w: Seq<char>| windows_server(w));
}

/// A line of `/etc/resolv.conf` that says `nameserver` and, after a space, an
/// address tells that address, with whitespace around it or not, unless it is the
/// machine itself.
pub proof fn law_resolv_conf_line(
    before: Seq<char>,
    gap: Seq<char>,
    address: Seq<char>,
    after: Seq<char>,
)
    requires
        forall|i: int| 0 <= i < before.len() ==> whitespace(#[trigger] before[i]),
        forall|i: int| 0 <= i < gap.len() ==> whitespace(#[trigger] gap[i]),
        forall|i: int| 0 <= i < after.len() ==> whitespace(#[trigger] after[i]),
        address.len() > 0,
        !whitespace(address[0]),
        !whitespace(address.last()),
    ensures
        resolv_conf_server(before + ("nameserver "@ + gap + address) + after) == (if address
            != "127.0.0.1"@ && address != "::1"@ {
            Some(address)
        } else {
            None
        }),
{
    let middle = "nameserver "@ + gap + address;
    assert("nameserver "@.len() == 11 && "nameserver "@[0] == 'n') by {
        reveal_strlit("nameserver ");
    }
    assert(!whitespace('n'));
    assert(middle[0] == "nameserver "@[0]);
    assert(middle.last() == address.last());
    law_trimming_keeps_the_middle(before, middle, after);
    law_prefix_is_removed(gap + address, "nameserver "@);
    assert(middle =~= "nameserver "@ + (gap + address));
    law_trimming_keeps_the_middle(gap, address, Seq::empty());
    assert(gap + address + Seq::<char>::empty() =~= gap + address);
}

/// A line of the output of `scutil` that says `nameserver[`, a number and `]`
/// tells what follows, without the whitespace around it, up to another `]`.
pub proof fn law_scutil_line(
    before: Seq<char>,
    number: Seq<char>,
    gap: Seq<char>,
    server: Seq<char>,
    after: Seq<char>,
)
    requires
        forall|i: int| 0 <= i < before.len() ==> whitespace(#[trigger] before[i]),
        forall|i: int| 0 <= i < gap.len() ==> whitespace(#[trigger] gap[i]),
        forall|i: int| 0 <= i < after.len() ==> whitespace(#[trigger] after[i]),
        !number.contains(']'),
        !(gap + server).contains(']'),
        server.len() > 0,
        !whitespace(server[0]),
        !whitespace(server.last()),
    ensures
        scutil_server(before + ("nameserver["@ + (number + seq![']'] + (gap + server))) + after)
            == (if server != "127.0.0.1"@ && server != "::1"@ {
            Some(server)
        } else {
            None
        }),
{
    let rest = number + seq![']'] + (gap + server);
    let middle = "nameserver["@ + rest;
    assert("nameserver["@.len() == 11 && "nameserver["@[0] == 'n') by {
        reveal_strlit("nameserver[");
    }
    assert(!whitespace('n'));
    assert(middle[0] == "nameserver["@[0]);
    assert(middle.last() == server.last());
    law_trimming_keeps_the_middle(before, middle, after);
    law_prefix_is_removed(rest, "nameserver["@);
    law_second_field_is_between_separators(number, gap + server, ']', Seq::empty());
    law_trimming_keeps_the_middle(gap, server, Seq::empty());
    assert(gap + server + Seq::<char>::empty() =~= gap + server);
}

/// A line that does not say `nameserver`, once whitespace around it is left out,
/// tells no server.
pub proof fn law_other_lines_tell_nothing(line: Seq<char>)
    ensures
        !"nameserver "@.is_prefix_of(trimmed(line)) ==> resolv_conf_server(line) is None,
        !"nameserver["@.is_prefix_of(trimmed(line)) ==> scutil_server(line) is None,
{
}

/// The servers that a configuration tells are all used, and the fallback only
/// where it tells none or cannot be had.
pub proof fn law_fallback_is_for_nothing_else(os: TargetOs, text: Seq<char>)
    ensures
        configured_servers(os, text).len() > 0 ==> servers_or_fallback(os, Some(text))
            == configured_servers(os, text),
        configured_servers(os, text).len() == 0 ==> servers_or_fallback(os, Some(text)) == seq![
            "8.8.8.8"@,
        ],
        servers_or_fallback(os, None) == seq!["8.8.8.8"@],
{
}

/// A file is read only where it is valid UTF-8, and then as it is; the output of a
/// tool is read in any case.
pub proof fn law_configurations_are_read(bytes: Seq<u8>)
    ensures
        vstd::utf8::valid_utf8(bytes) ==> configuration_text(TargetOs::Linux, bytes) == Some(
            vstd::utf8::decode_utf8(bytes),
        ),
        !vstd::utf8::valid_utf8(bytes) ==> configuration_text(TargetOs::Linux, bytes) is None,
        configuration_text(TargetOs::MacOs, bytes) == Some(utf8_lossy(bytes)),
        configuration_text(TargetOs::Windows, bytes) == Some(utf8_lossy(bytes)),
{
}

proof fn mtu_after(route: Seq<Seq<char>>, from: int, n: int)
    requires
        0 <= from <= n <= route.len(),
        forall|i: int|
            from <= i < n ==> !"mtu"@.is_prefix_of(#[trigger] route[i]),
    ensures
        mtu_from(route, from) == mtu_from(route, n),
    decreases n - from,
{
    if from < n {
        assert(!"mtu"@.is_prefix_of(route[from]));
        mtu_after(route, from + 1, n);
    }
}

/// The packet size of a route is the number after its first word `mtu`, or the one
/// that is attached to it, wherever in the route that stands; it is raised to 1280
/// where it is smaller.
pub proof fn law_number_after_mtu_counts(route: Seq<char>, n: int, mtu: u16)
    requires
        0 <= n < words_of(route).len(),
        forall|i: int| 0 <= i < n ==> !"mtu"@.is_prefix_of(#[trigger] words_of(route)[i]),
        (words_of(route)[n] == "mtu"@ && n + 1 < words_of(route).len() && words_of(route)[n + 1]
            == decimal(mtu as nat)) || words_of(route)[n] == "mtu"@ + decimal(mtu as nat),
    ensures
        route_mtu(route) == (if mtu >= 1280 {
            mtu
        } else {
            1280
        }),
{
    let words = words_of(route);
    law_decimal_round_trip(mtu as nat);
    mtu_after(words, 0, n);
    if words[n] == "mtu"@ {
        law_prefix_is_removed(Seq::empty(), "mtu"@);
        assert("mtu"@ + Seq::<char>::empty() =~= "mtu"@);
        assert(mtu_at(words, n) == parsed_u16(words[n + 1]));
    } else {
        law_prefix_is_removed(decimal(mtu as nat), "mtu"@);
        let number = decimal(mtu as nat);
        assert('0' <= number[0] <= '9' && '0' <= number[number.len() - 1] <= '9');
        law_trimming_keeps_the_middle(Seq::empty(), number, Seq::empty());
        assert(Seq::<char>::empty() + number + Seq::<char>::empty() =~= number);
    }
    assert(mtu_at(words, n) == Some(mtu));
}

/// A route in which no word starts with `mtu` has the default packet size.
pub proof fn law_route_without_mtu(route: Seq<char>)
    requires
        forall|i: int|
            0 <= i < words_of(route).len() ==> !"mtu"@.is_prefix_of(#[trigger] words_of(route)[i]),
    ensures
        route_mtu(route) == 16384,
{
    mtu_after(words_of(route), 0, words_of(route).len() as int);
}

/// The devices of a listing are read line by line after its title: a line tells a
/// device where its second word is `device`, and it tells its first word.
pub proof fn law_devices_are_listed_line_by_line(
    title: Seq<char>,
    line: Seq<char>,
    rest: Seq<char>,
)
    requires
        !title.contains('\n'),
        !line.contains('\n'),
    ensures
        ({
            let text = if line.len() > 0 && line.last() == '\r' {
                line.drop_last()
            } else {
                line
            };
            let words = words_of(text);
            ready_devices(title + seq!['\n'] + (line + seq!['\n'] + rest)) == (if words.len() >= 2
                && words[1] == "device"@ {
                seq![words[0]]
            } else {
                Seq::empty()
            }) + ready_devices(title + seq!['\n'] + rest)
        }),
        ready_devices(title + seq!['\n']).len() == 0,
        ready_devices(title).len() == 0,
{
    let pick = |l: Seq<char>| ready_device(l);
    let text = if line.len() > 0 && line.last() == '\r' {
        line.drop_last()
    } else {
        line
    };
    let tail = line + seq!['\n'] + rest;
    law_lines_end_at_newlines(title, tail);
    law_lines_end_at_newlines(line, rest);
    law_lines_end_at_newlines(title, rest);
    law_lines_end_at_newlines(title, Seq::empty());
    assert(lines_of(title + seq!['\n'] + tail).skip(1) =~= lines_of(tail));
    assert(lines_of(title + seq!['\n'] + rest).skip(1) =~= lines_of(rest));
    filter_map_first(text, lines_of(rest), pick);
    assert(title + seq!['\n'] + Seq::<char>::empty() =~= title + seq!['\n']);
    assert(lines_of(title + seq!['\n']).skip(1) =~= Seq::<Seq<char>>::empty());
    assert(Seq::<Seq<char>>::empty().filter_map(pick).len() == 0);
    if title.len() > 0 {
        assert(lines_of(title).skip(1) =~= Seq::<Seq<char>>::empty());
    } else {
        assert(title =~= Seq::<char>::empty());
    }
}

/// A device is known without being asked for exactly where one is ready and no
/// other; one that was asked for is used whatever is attached, and where the list
/// cannot be had none is known.
pub proof fn law_device_is_known_where_it_is_the_only_one(
    listing: Seq<char>,
    serial: Seq<char>,
    outcome: Result<Output, IoError>,
)
    ensures
        only_device(listing) is Some <==> ready_devices(listing).len() == 1,
        only_device(listing) is Some ==> ready_devices(listing) == seq![only_device(listing)->0],
        target_serial(Some(serial), outcome) == Some(serial),
        outcome is Err ==> target_serial(None, outcome) is None,
        outcome is Ok && outcome->Ok_0.status.code != Some(0i32) ==> target_serial(None, outcome)
            is None,
        outcome is Ok && outcome->Ok_0.status.code == Some(0i32) ==> target_serial(None, outcome)
            == only_device(utf8_lossy(outcome->Ok_0.stdout@)),
{
    if only_device(listing) is Some {
        assert(ready_devices(listing) =~= seq![only_device(listing)->0]);
    }
}

/// Only the route of a Linux system tells a packet size.
pub proof fn law_packet_size_is_read_on_linux(os: TargetOs, bytes: Seq<u8>)
    ensures
        system_mtu(TargetOs::Linux, Some(bytes)) == route_mtu(utf8_lossy(bytes)),
        os != TargetOs::Linux ==> system_mtu(os, Some(bytes)) == 16384,
        system_mtu(os, None) == 16384,
{
}

/// Every call reads name servers, packet sizes and devices as they should be read.
pub proof fn law_calls_read_the_system(
    os: TargetOs,
    text: &str,
    bytes: &[u8],
    servers: Vec<String>,
    mtu: u16,
    serial: Option<&str>,
    found: Option<String>,
    listing: Result<Output, IoError>,
)
    ensures
        call_ensures(read_servers, (os, text), servers) ==> texts(servers@) == configured_servers(
            os,
            text@,
        ),
        call_ensures(detect_system_dns, (os, Some(bytes)), servers) ==> texts(servers@)
            == servers_or_fallback(os, configuration_text(os, bytes@)),
        call_ensures(detect_system_dns, (os, None), servers) ==> texts(servers@) == seq![
            "8.8.8.8"@,
        ],
        call_ensures(read_mtu, (text,), mtu) ==> mtu == route_mtu(text@),
        call_ensures(detect_mtu, (os, Some(bytes)), mtu) ==> mtu == system_mtu(os, Some(bytes@)),
        call_ensures(detect_mtu, (os, None), mtu) ==> mtu == 16384,
        call_ensures(read_only_device, (text,), found) ==> optional_text(found) == only_device(
            text@,
        ),
        call_ensures(effective_serial, (serial, &listing), found) ==> optional_text(found)
            == target_serial(optional_str(serial), listing),
{
}

/// Every call names the place where a system tells its name servers, and the
/// command that tells its default route.
pub proof fn law_calls_name_the_sources(
    os: TargetOs,
    source: NameServerSource,
    query: Option<Cmd>,
)
    ensures
        call_ensures(name_server_source, (os,), source) ==> {
            &&& os is Linux ==> source@ == NameServerPlace::File("/etc/resolv.conf"@)
            &&& os is MacOs ==> source@ == NameServerPlace::Tool(
                CommandLine { command: "scutil"@, args: seq!["--dns"@] },
            )
            &&& os is Windows ==> source@ == NameServerPlace::Tool(
                CommandLine {
                    command: "powershell"@,
                    args: seq!["-Command"@, "(Get-DnsClientServerAddress).ServerAddresses"@],
                },
            )
        },
        call_ensures(route_query, (os,), query) ==> {
            &&& query is Some <==> os is Linux
            &&& query is Some ==> query->0@.command == "ip"@ && query->0@.args == seq![
                "route"@,
                "show"@,
                "default"@,
            ]
        },
{
}

} // verus!
