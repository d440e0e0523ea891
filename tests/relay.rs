use tunglo::error::TunnelError;
use tunglo::relay::{
    CopyLoop, CopyStep, Direction, ReadResult, Relay, RelayAction, TunnelRunner, WriteResult,
};

/// Feeds the chunks through one copy direction, every write succeeding, and
/// returns what was written and how the copy ended.
fn pump(chunks: Vec<Vec<u8>>) -> (Vec<u8>, Option<Result<(), TunnelError>>) {
    let mut copy = CopyLoop::new(Direction::Inbound);
    let mut out = Vec::new();
    for chunk in chunks {
        match copy.on_read(ReadResult::Data(chunk)) {
            CopyStep::Write(bytes) => {
                out.extend_from_slice(&bytes);
                assert!(matches!(copy.on_write(WriteResult::Written), CopyStep::Read));
            }
            CopyStep::Finished(r) => return (out, Some(r)),
            CopyStep::Read => unreachable!(),
        }
    }
    (out, None)
}

#[test]
fn bytes_pass_unchanged_whatever_the_chunks() {
    let data: Vec<u8> = (0..10000u32).map(|i| (i * 7 % 251) as u8).collect();
    let chunks: Vec<Vec<u8>> = vec![
        data[..1].to_vec(),
        data[1..4096].to_vec(),
        data[4096..4097].to_vec(),
        data[4097..9999].to_vec(),
        data[9999..].to_vec(),
    ];
    let (out, end) = pump(chunks);
    assert_eq!(out, data);
    assert!(end.is_none());
}

#[test]
fn empty_read_ends_the_copy_cleanly() {
    let (out, end) = pump(vec![b"GET / HTTP/1.1\r\n".to_vec(), Vec::new(), b"late".to_vec()]);
    assert_eq!(out, b"GET / HTTP/1.1\r\n".to_vec());
    assert_eq!(end, Some(Ok(())));
}

fn finished(step: CopyStep) -> Result<(), TunnelError> {
    match step {
        CopyStep::Finished(r) => r,
        _ => panic!("a failure ends the copy"),
    }
}

#[test]
fn inbound_failures_are_tagged_bad_read() {
    let mut copy = CopyLoop::new(Direction::Inbound);
    assert_eq!(
        finished(copy.on_read(ReadResult::Failed(String::from("reset")))),
        Err(TunnelError::Io(String::from("bad_read"), String::from("reset")))
    );
    assert!(copy.is_done());
    let mut copy = CopyLoop::new(Direction::Inbound);
    assert!(matches!(copy.on_read(ReadResult::Data(vec![1, 2, 3])), CopyStep::Write(_)));
    assert_eq!(
        finished(copy.on_write(WriteResult::Failed(String::from("broken pipe")))),
        Err(TunnelError::Io(String::from("bad_read"), String::from("broken pipe")))
    );
}

#[test]
fn outbound_failures_are_tagged_bad_write() {
    let mut copy = CopyLoop::new(Direction::Outbound);
    assert_eq!(
        finished(copy.on_read(ReadResult::Failed(String::from("reset")))),
        Err(TunnelError::Io(String::from("bad_write"), String::from("reset")))
    );
    let mut copy = CopyLoop::new(Direction::Outbound);
    assert!(matches!(copy.on_read(ReadResult::Data(vec![4])), CopyStep::Write(_)));
    assert_eq!(
        finished(copy.on_write(WriteResult::Failed(String::from("broken pipe")))),
        Err(TunnelError::Io(String::from("bad_write"), String::from("broken pipe")))
    );
}

#[test]
fn first_finished_direction_cancels_the_other() {
    let mut relay = Relay::new();
    assert_eq!(relay.on_dial(Ok(())), RelayAction::StartCopies);
    assert!(!relay.is_finished());
    assert_eq!(
        relay.on_copy_finished(Direction::Outbound, Ok(())),
        RelayAction::Cancel(Direction::Inbound)
    );
    assert!(relay.is_finished());
    let late = Err(TunnelError::Io(String::from("bad_read"), String::from("x")));
    assert_eq!(relay.on_copy_finished(Direction::Inbound, late), RelayAction::Ignore);
    assert_eq!(relay.into_result(), Some(Ok(())));
}

#[test]
fn failed_dial_closes_the_channel() {
    let mut relay = Relay::new();
    assert_eq!(relay.on_dial(Err(String::from("connection refused"))), RelayAction::Close);
    assert_eq!(
        relay.into_result(),
        Some(Err(TunnelError::Io(String::from("connect"), String::from("connection refused"))))
    );
}

#[test]
fn two_relays_are_independent() {
    let mut a = Relay::new();
    let mut b = Relay::new();
    a.on_dial(Ok(()));
    b.on_dial(Ok(()));
    a.on_copy_finished(
        Direction::Inbound,
        Err(TunnelError::Io(String::from("bad_write"), String::from("closed"))),
    );
    assert!(a.is_finished());
    assert!(!b.is_finished());
    assert_eq!(Direction::Inbound.other(), Direction::Outbound);
}

#[test]
fn runner_keeps_its_target() {
    let r = TunnelRunner::new("localhost", 8082).unwrap();
    assert_eq!(r.addr(), "localhost");
    assert_eq!(r.port(), 8082);
}
