use gnirehtet::io_error::{ErrorKind, IoError};
use gnirehtet::relay::client::{Client, DeviceFeed};
use gnirehtet::relay::client_loop::{
    greeting, sleep_millis, sort_outcome, welcome, ClientIds, ClientLoop, LoopEvent, LoopInput,
    LoopOutput, LoopStage, StreamOutcome, CLEANUP_INTERVAL_SECONDS, IDLE_SLEEP_MILLIS,
};
use gnirehtet::relay::clock::NANOS_PER_SECOND;
use gnirehtet::relay::connection::Connection;
use gnirehtet::relay::ip_packet::{IpHeaderData, IpPacket, Protocol, TransportHeaderData};
use gnirehtet::relay::net::IpAddr;
use gnirehtet::relay::udp_connection::UdpConnection;

fn packet() -> IpPacket {
    IpPacket {
        raw: vec![1, 2, 3],
        valid: true,
        ip_header: IpHeaderData {
            protocol: Protocol::Udp,
            source: IpAddr::V4(1),
            destination: IpAddr::V4(2),
        },
        transport_header: Some(TransportHeaderData {
            source_port: 1,
            destination_port: 2,
        }),
        payload: Some(vec![3]),
    }
}

fn client() -> Client<UdpConnection> {
    match Client::create(1, None) {
        Ok(client) => client,
        Err(_) => panic!("a client can always be created"),
    }
}

fn client_with_connection() -> Client<UdpConnection> {
    let mut client = client();
    let mut feed = DeviceFeed::new(Ok(true), vec![packet()]);
    match client.feed_device_data(&mut feed) {
        Some(request) => {
            let created = UdpConnection::create(request.id, Ok(()), 0);
            client.connection_opened(created, feed.packet(request.packet));
        }
        None => panic!("the flow has no connection"),
    }
    client
}

fn greeted() -> ClientLoop {
    let mut run = ClientLoop::new(0);
    assert_eq!(run.stage, LoopStage::Configure);
    run.next(LoopEvent::Done);
    assert_eq!(run.stage, LoopStage::Greet);
    run.next(LoopEvent::Done);
    assert_eq!(run.stage, LoopStage::Check);
    run
}

#[test]
fn clients_are_numbered_from_one() {
    let mut ids = ClientIds::new();
    assert_eq!(ids.assign(), 1);
    assert_eq!(ids.assign(), 2);
    assert_eq!(ids.assign(), 3);
}

#[test]
fn the_greeting_is_big_endian() {
    assert_eq!(greeting(1), [0, 0, 0, 1]);
    assert_eq!(greeting(0x0102_0304), [1, 2, 3, 4]);
    for id in [0, 255, 256, 0xdead_beef, u32::MAX] {
        assert_eq!(greeting(id), id.to_be_bytes());
    }
}

#[test]
fn a_device_is_told_the_number_of_its_client() {
    let mut ids = ClientIds::new();
    for expected in 1..4 {
        match welcome::<UdpConnection>(&mut ids, Some("S1".to_string())) {
            Ok((client, bytes)) => {
                assert_eq!(client.id(), expected);
                assert_eq!(bytes, [0, 0, 0, expected as u8]);
            }
            Err(_) => panic!("a client can always be created"),
        }
    }
}

#[test]
fn outcomes_are_sorted() {
    assert_eq!(sort_outcome(&Ok(5)), StreamOutcome::Moved(5));
    let later = Err(IoError::new(ErrorKind::WouldBlock, "later"));
    assert_eq!(sort_outcome(&later), StreamOutcome::WouldBlock);
    for kind in [ErrorKind::Other, ErrorKind::UnexpectedEof, ErrorKind::WriteZero] {
        assert_eq!(sort_outcome(&Err(IoError::new(kind, "x"))), StreamOutcome::Failed);
    }
}

#[test]
fn a_client_that_cannot_be_greeted_is_left() {
    let mut run = ClientLoop::new(0);
    run.next(LoopEvent::Failed);
    assert_eq!(run.stage, LoopStage::Stopped);
    let mut run = ClientLoop::new(0);
    run.next(LoopEvent::Done);
    run.next(LoopEvent::Failed);
    assert_eq!(run.stage, LoopStage::Stopped);
}

#[test]
fn an_idle_round_ends_with_a_sleep() {
    assert_eq!(IDLE_SLEEP_MILLIS, 1);
    assert_eq!(sleep_millis(LoopStage::Sleep), Some(1));
    assert_eq!(sleep_millis(LoopStage::Read), None);
    let mut client = client();
    let mut run = greeted();
    for (input, stage) in [
        (LoopInput::CloseRequested(false), LoopStage::Read),
        (LoopInput::Read(StreamOutcome::WouldBlock), LoopStage::Poll),
        (LoopInput::Polled(Vec::new()), LoopStage::Time),
        (LoopInput::Time(NANOS_PER_SECOND), LoopStage::Drain),
        (LoopInput::Done, LoopStage::Sleep),
        (LoopInput::Done, LoopStage::Check),
    ] {
        let _ = client.run_blocking(&mut run, input);
        assert_eq!(run.stage, stage);
    }
}

#[test]
fn a_round_with_data_from_the_device_polls_twice_and_does_not_sleep() {
    let mut client = client();
    let mut run = greeted();
    for (input, stage) in [
        (LoopInput::CloseRequested(false), LoopStage::Read),
        (LoopInput::Read(StreamOutcome::Moved(40)), LoopStage::Feed),
        (LoopInput::Done, LoopStage::PollFed),
        (LoopInput::Polled(Vec::new()), LoopStage::Poll),
        (LoopInput::Polled(Vec::new()), LoopStage::Time),
        (LoopInput::Time(0), LoopStage::Drain),
        (LoopInput::Done, LoopStage::Check),
    ] {
        let _ = client.run_blocking(&mut run, input);
        assert_eq!(run.stage, stage);
    }
    assert!(run.made_progress);
}

#[test]
fn what_waits_for_the_device_is_written() {
    let mut client = client();
    assert!(client.send_to_client(&packet()).is_ok());
    let mut run = greeted();
    run.stage = LoopStage::Drain;
    match client.run_blocking(&mut run, LoopInput::Done) {
        LoopOutput::Outgoing(bytes) => assert_eq!(bytes, [1, 2, 3]),
        _ => panic!("a packet waits"),
    }
    assert_eq!(run.stage, LoopStage::Write);
    let mut failed = run;
    let _ = client.run_blocking(&mut run, LoopInput::Done);
    assert_eq!(run.stage, LoopStage::Check);
    let _ = client.run_blocking(&mut failed, LoopInput::Failed);
    assert_eq!(failed.stage, LoopStage::Stopped);
    assert!(!client.has_outgoing());
}

#[test]
fn the_end_of_the_stream_closes_the_client() {
    for outcome in [StreamOutcome::Moved(0), StreamOutcome::Failed] {
        let mut client = client_with_connection();
        let mut run = greeted();
        let _ = client.run_blocking(&mut run, LoopInput::CloseRequested(false));
        let _ = client.run_blocking(&mut run, LoopInput::Read(outcome));
        assert_eq!(run.stage, LoopStage::Close);
        match client.run_blocking(&mut run, LoopInput::Done) {
            LoopOutput::Removed(connections) => {
                assert_eq!(connections.len(), 1);
                assert!(connections[0].is_closed());
            }
            _ => panic!("the connection is let go of"),
        }
        assert_eq!(run.stage, LoopStage::Stopped);
        assert!(client.is_closed());
    }
}

#[test]
fn a_closed_client_is_left() {
    let mut client = client();
    let mut run = greeted();
    let _ = client.run_blocking(&mut run, LoopInput::CloseRequested(true));
    assert_eq!(run.stage, LoopStage::Stopped);
    let _ = client.close();
    let mut run = greeted();
    let _ = client.run_blocking(&mut run, LoopInput::CloseRequested(false));
    assert_eq!(run.stage, LoopStage::Stopped);
}

#[test]
fn clean_ups_are_five_seconds_apart() {
    assert_eq!(CLEANUP_INTERVAL_SECONDS, 5);
    let mut run = greeted();
    run.stage = LoopStage::Time;
    run.next(LoopEvent::Time(5 * NANOS_PER_SECOND - 1));
    assert_eq!(run.stage, LoopStage::Drain);
    assert_eq!(run.last_cleanup, 0);
    run.stage = LoopStage::Time;
    run.next(LoopEvent::Time(5 * NANOS_PER_SECOND));
    assert_eq!(run.stage, LoopStage::Clean);
    assert_eq!(run.last_cleanup, 5 * NANOS_PER_SECOND);
    run.stage = LoopStage::Time;
    run.next(LoopEvent::Time(9 * NANOS_PER_SECOND));
    assert_eq!(run.stage, LoopStage::Drain);
}

#[test]
fn a_clean_up_closes_idle_connections() {
    let mut client = client_with_connection();
    let mut run = greeted();
    run.stage = LoopStage::Time;
    let _ = client.run_blocking(&mut run, LoopInput::Time(301 * NANOS_PER_SECOND));
    match client.run_blocking(&mut run, LoopInput::Done) {
        LoopOutput::Removed(connections) => {
            assert_eq!(connections.len(), 1);
            assert!(connections[0].is_closed());
        }
        _ => panic!("the connection is idle"),
    }
    assert_eq!(run.stage, LoopStage::Drain);
    assert_eq!(client.router().len(), 0);
}

#[test]
fn a_poll_lets_go_of_failed_connections() {
    let mut client = client_with_connection();
    let mut run = greeted();
    run.stage = LoopStage::Poll;
    let polled = LoopInput::Polled(vec![Err(IoError::other("refused"))]);
    match client.run_blocking(&mut run, polled) {
        LoopOutput::Removed(connections) => assert_eq!(connections.len(), 1),
        _ => panic!("the connection failed"),
    }
    assert_eq!(run.stage, LoopStage::Time);
}
