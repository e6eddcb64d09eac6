use std::sync::mpsc::{channel, Sender};

use visa_rs::operation::{AsyncWrite, OpPoll, OpState, Received, Started};
use visa_rs::registry::CompletionRegistry;
use visa_rs::status::ErrorCode;
use visa_rs::{AsyncRead, Error, JobID, Result};

type Registry = CompletionRegistry<Sender<Result<usize>>, u32>;

#[test]
fn dropping_awaiting_read_terminates_once() {
    let mut reg = Registry::new();
    let (tx, _rx) = channel();
    let mut op = AsyncRead::new();
    assert!(matches!(op.start(&mut reg, Ok(JobID(21)), tx, 0), Started::Registered(None)));
    assert_eq!(op.state(), OpState::Awaiting(JobID(21)));
    assert_eq!(op.cancel(&mut reg), Some(JobID(21)));
    assert!(!reg.is_live(JobID(21)));
    assert!(reg.is_cancelled(JobID(21)));
    assert_eq!(op.state(), OpState::Finished);
    assert_eq!(op.cancel(&mut reg), None);
}

#[test]
fn dropping_unstarted_or_finished_does_nothing() {
    let mut reg = Registry::new();
    let mut op = AsyncWrite::new();
    assert_eq!(op.cancel(&mut reg), None);
    assert!(!reg.is_cancelled(JobID(0)));

    let (tx, rx) = channel();
    assert!(matches!(op.start(&mut reg, Ok(JobID(22)), tx, 0), Started::Registered(None)));
    let d = reg.complete(JobID(22), Ok(3)).expect("delivery");
    d.sender.send(d.result).unwrap();
    assert!(matches!(op.poll_received(Received::Value(rx.try_recv().unwrap())), OpPoll::Ready(Ok(3))));
    assert_eq!(op.cancel(&mut reg), None);
    assert!(!reg.is_cancelled(JobID(22)));
}

#[test]
fn synchronous_failure_registers_nothing() {
    let mut reg = Registry::new();
    let (tx, _rx) = channel();
    let mut op = AsyncWrite::new();
    match op.start(&mut reg, Err(Error(ErrorCode::ErrorInProgress)), tx, 0) {
        Started::Failed(e) => assert_eq!(e, Error(ErrorCode::ErrorInProgress)),
        Started::Registered(_) => panic!("registered"),
    }
    assert_eq!(op.state(), OpState::Finished);
    assert!(!reg.is_live(JobID(0)));
}

#[test]
fn disconnected_channel_resolves_to_connection_lost() {
    let mut reg = Registry::new();
    let (tx, _rx) = channel();
    let mut op = AsyncRead::new();
    assert!(matches!(op.start(&mut reg, Ok(JobID(23)), tx, 0), Started::Registered(None)));
    match op.poll_received(Received::Disconnected) {
        OpPoll::Ready(r) => assert_eq!(r, Err(Error(ErrorCode::ErrorConnLost))),
        OpPoll::Pending => panic!("pending"),
    }
    assert_eq!(op.state(), OpState::Finished);
}

#[test]
fn start_merges_early_completion() {
    let mut reg = Registry::new();
    assert!(reg.complete(JobID(24), Ok(17)).is_none());
    let (tx, rx) = channel();
    let mut op = AsyncRead::new();
    match op.start(&mut reg, Ok(JobID(24)), tx, 0) {
        Started::Registered(Some(d)) => d.sender.send(d.result).unwrap(),
        _ => panic!("expected an immediate delivery"),
    }
    assert!(matches!(op.poll_received(Received::Value(rx.try_recv().unwrap())), OpPoll::Ready(Ok(17))));
}
