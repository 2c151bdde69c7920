use gnirehtet::io_error::IoError;
use gnirehtet::relay::relay::{Relay, RelayEvent, RelayStage};
use gnirehtet::relay::serial_registry::{register_pending, PendingQueue, MATCH_WINDOW};

fn failure(stage: RelayStage) -> String {
    match stage {
        RelayStage::Failed(e) => e.message,
        _ => panic!("the server goes on"),
    }
}

#[test]
fn the_server_listens_on_every_address() {
    assert_eq!(Relay::new(31416).address(), "0.0.0.0:31416");
    assert_eq!(Relay::new(0).address(), "0.0.0.0:0");
}

#[test]
fn devices_are_served_with_the_serials_that_were_registered() {
    let relay = Relay::new(1);
    let mut pending = PendingQueue::new();
    register_pending(&mut pending, "S1", 10);
    register_pending(&mut pending, "S2", 20);
    let mut stage = relay.run();
    assert!(matches!(stage, RelayStage::Starting));
    stage = relay.run_async(stage, RelayEvent::Tried(Ok(())), &mut pending);
    assert!(matches!(stage, RelayStage::Binding));
    stage = relay.run_async(stage, RelayEvent::Tried(Ok(())), &mut pending);
    assert!(matches!(stage, RelayStage::Accepting));
    for expected in [Some("S1"), Some("S2"), None] {
        stage = relay.run_async(stage, RelayEvent::Accepted(Ok(30)), &mut pending);
        match &stage {
            RelayStage::Preparing(serial) => assert_eq!(serial.as_deref(), expected),
            _ => panic!("a device connected"),
        }
        stage = relay.run_async(stage, RelayEvent::Tried(Ok(())), &mut pending);
        match &stage {
            RelayStage::Serving(serial) => assert_eq!(serial.as_deref(), expected),
            _ => panic!("the device is served"),
        }
        stage = relay.run_async(stage, RelayEvent::Tried(Ok(())), &mut pending);
        assert!(matches!(stage, RelayStage::Accepting));
    }
}

#[test]
fn a_stale_serial_is_not_given_to_a_device() {
    let relay = Relay::new(1);
    let mut pending = PendingQueue::new();
    register_pending(&mut pending, "S1", 0);
    let accepted = RelayEvent::Accepted(Ok(MATCH_WINDOW));
    let stage = relay.run_async(RelayStage::Accepting, accepted, &mut pending);
    assert!(matches!(stage, RelayStage::Preparing(None)));
}

#[test]
fn the_first_error_ends_the_server() {
    let relay = Relay::new(1);
    let mut pending = PendingQueue::new();
    register_pending(&mut pending, "S1", 0);
    for stage in [
        RelayStage::Starting,
        RelayStage::Binding,
        RelayStage::Preparing(None),
    ] {
        let event = RelayEvent::Tried(Err(IoError::other("in use")));
        assert_eq!(failure(relay.run_async(stage, event, &mut pending)), "in use");
    }
    let event = RelayEvent::Accepted(Err(IoError::other("too many files")));
    let stage = relay.run_async(RelayStage::Accepting, event, &mut pending);
    assert_eq!(failure(stage), "too many files");
    // the serial still waits
    let stage = relay.run_async(RelayStage::Accepting, RelayEvent::Accepted(Ok(0)), &mut pending);
    match stage {
        RelayStage::Preparing(serial) => assert_eq!(serial, Some("S1".to_string())),
        _ => panic!("a device connected"),
    }
}
