use gnirehtet::io_error::{ErrorKind, IoError};
use gnirehtet::relay::transfer::{wait_millis, Transfer, TransferStep};

#[test]
fn a_buffer_is_written_piece_by_piece() {
    let buffer = [1u8, 2, 3, 4, 5];
    let mut stream = Vec::new();
    let mut transfer = Transfer::new(buffer.len());
    for n in [2usize, 1, 2] {
        assert!(!transfer.is_done());
        let rest = &buffer[transfer.position()..];
        stream.extend_from_slice(&rest[..n]);
        let step = transfer.write_all(Ok(n));
        if transfer.is_done() {
            assert!(matches!(step, TransferStep::Done));
            assert_eq!(wait_millis(&step), None);
        } else {
            assert!(matches!(step, TransferStep::Continue));
        }
        let later = Err(IoError::new(ErrorKind::WouldBlock, "later"));
        if !transfer.is_done() {
            let step = transfer.write_all(later);
            assert!(matches!(step, TransferStep::Wait));
            assert_eq!(wait_millis(&step), Some(1));
        }
    }
    assert!(transfer.is_done());
    assert_eq!(stream, buffer);
}

#[test]
fn nothing_to_write_is_done() {
    assert!(Transfer::new(0).is_done());
}

#[test]
fn a_write_of_nothing_fails() {
    let mut transfer = Transfer::new(4);
    match transfer.write_all(Ok(0)) {
        TransferStep::Failed(e) => {
            assert_eq!(e.kind, ErrorKind::WriteZero);
            assert_eq!(e.message, "write zero");
        }
        _ => panic!("nothing was written"),
    }
    assert_eq!(transfer.position(), 0);
}

#[test]
fn a_read_at_the_end_fails() {
    let mut transfer = Transfer::new(4);
    assert!(matches!(transfer.read_exact(Ok(3)), TransferStep::Continue));
    match transfer.read_exact(Ok(0)) {
        TransferStep::Failed(e) => {
            assert_eq!(e.kind, ErrorKind::UnexpectedEof);
            assert_eq!(e.message, "eof");
        }
        _ => panic!("nothing was read"),
    }
    assert!(matches!(transfer.read_exact(Ok(1)), TransferStep::Done));
}

#[test]
fn a_broken_stream_fails_with_its_own_error() {
    let mut transfer = Transfer::new(4);
    match transfer.write_all(Err(IoError::other("broken pipe"))) {
        TransferStep::Failed(e) => assert_eq!(e.message, "broken pipe"),
        _ => panic!("the stream is broken"),
    }
    match transfer.read_exact(Err(IoError::other("reset"))) {
        TransferStep::Failed(e) => assert_eq!(e.message, "reset"),
        _ => panic!("the stream is broken"),
    }
}
