use std::sync::atomic::{AtomicUsize, Ordering};
use std::sync::mpsc::{channel, Receiver, Sender, TryRecvError};
use std::sync::Arc;

use visa_rs::operation::{AsyncRead, OpPoll, Received, Started};
use visa_rs::registry::{
    CompletionRegistry, Delivery, EventTriage, HANDLER_SUCCESS, HANDLER_SUCCESS_NCHAIN,
};
use visa_rs::status::ErrorCode;
use visa_rs::{Error, JobID, Result};

type Tx = Sender<Result<usize>>;
type Wake = Arc<AtomicUsize>;
type Registry = CompletionRegistry<Tx, Wake>;

const SUCCESS: i32 = 0;
const TMO: i32 = -1073807339;

fn deliver(d: Delivery<Tx, Wake>) {
    d.sender.send(d.result).unwrap();
    d.waker.fetch_add(1, Ordering::SeqCst);
}

fn job_channel() -> (Tx, Receiver<Result<usize>>, Wake) {
    let (tx, rx) = channel();
    (tx, rx, Arc::new(AtomicUsize::new(0)))
}

#[test]
fn registered_job_resolves_on_dispatch() {
    let mut reg = Registry::new();
    let (tx, rx, wakes) = job_channel();
    let mut op = AsyncRead::new();
    match op.start(&mut reg, Ok(JobID(7)), tx, wakes.clone()) {
        Started::Registered(d) => assert!(d.is_none()),
        Started::Failed(_) => panic!("start failed"),
    }
    assert!(reg.is_live(JobID(7)));
    assert!(matches!(op.poll_received(Received::Empty), OpPoll::Pending));

    let h = reg.handle_event(JobID(7), SUCCESS, Some(Ok(42)));
    assert_eq!(h.handler_status, HANDLER_SUCCESS_NCHAIN);
    deliver(h.delivery.expect("delivery"));
    assert_eq!(wakes.load(Ordering::SeqCst), 1);
    assert!(!reg.is_live(JobID(7)));

    let got = rx.try_recv().unwrap();
    match op.poll_received(Received::Value(got)) {
        OpPoll::Ready(r) => assert_eq!(r, Ok(42)),
        OpPoll::Pending => panic!("still pending"),
    }
}

#[test]
fn early_completion_merges_on_registration() {
    let mut reg = Registry::new();
    let h = reg.handle_event(JobID(9), SUCCESS, Some(Ok(5)));
    assert!(h.delivery.is_none());
    assert!(reg.has_pending(JobID(9)));

    let (tx, rx, wakes) = job_channel();
    let d = reg.add_job(JobID(9), tx, wakes.clone()).expect("merged at once");
    deliver(d);
    assert_eq!(rx.try_recv().unwrap(), Ok(5));
    assert_eq!(wakes.load(Ordering::SeqCst), 1);
    assert!(!reg.is_live(JobID(9)));
    assert!(!reg.has_pending(JobID(9)));
}

#[test]
fn dropped_job_ignores_late_completion() {
    let mut reg = Registry::new();
    let (tx, rx, wakes) = job_channel();
    assert!(reg.add_job(JobID(3), tx, wakes.clone()).is_none());
    reg.remove_job(JobID(3));
    assert!(reg.is_cancelled(JobID(3)));
    assert_eq!(reg.triage(JobID(3), SUCCESS), EventTriage::Cancelled);

    let h = reg.handle_event(JobID(3), SUCCESS, Some(Ok(1)));
    assert_eq!(h.handler_status, HANDLER_SUCCESS_NCHAIN);
    assert!(h.delivery.is_none());
    assert!(!reg.has_pending(JobID(3)));
    assert!(!reg.is_live(JobID(3)));
    assert_eq!(rx.try_recv(), Err(TryRecvError::Disconnected));
    assert_eq!(wakes.load(Ordering::SeqCst), 0);
}

#[test]
fn success_codes_deliver_byte_count() {
    let codes = [0, 0x3FFF009B, 0x3FFF0006, 0x3FFF0005, 0x3FFF0004, 0x3FFF0080, 0x3FFF000C];
    for (i, status) in codes.iter().enumerate() {
        let mut reg = Registry::new();
        let (tx, rx, wakes) = job_channel();
        let j = JobID(20 + i as u32);
        assert!(reg.add_job(j, tx, wakes).is_none());
        assert_eq!(reg.triage(j, *status), EventTriage::NeedsCount);
        let h = reg.handle_event(j, *status, Some(Ok(11)));
        deliver(h.delivery.expect("delivery"));
        assert_eq!(rx.try_recv().unwrap(), Ok(11));
    }
}

#[test]
fn error_codes_deliver_the_error() {
    let mut reg = Registry::new();
    let (tx, rx, wakes) = job_channel();
    assert!(reg.add_job(JobID(4), tx, wakes).is_none());
    assert_eq!(reg.triage(JobID(4), TMO), EventTriage::Failed(Error(ErrorCode::ErrorTmo)));
    let h = reg.handle_event(JobID(4), TMO, None);
    assert_eq!(h.handler_status, HANDLER_SUCCESS_NCHAIN);
    deliver(h.delivery.expect("delivery"));
    assert_eq!(rx.try_recv().unwrap(), Err(Error(ErrorCode::ErrorTmo)));
}

#[test]
fn count_read_failure_is_delivered() {
    let mut reg = Registry::new();
    let (tx, rx, wakes) = job_channel();
    assert!(reg.add_job(JobID(6), tx, wakes).is_none());
    let h = reg.handle_event(JobID(6), SUCCESS, Some(Err(Error(ErrorCode::ErrorNsupAttr))));
    deliver(h.delivery.expect("delivery"));
    assert_eq!(rx.try_recv().unwrap(), Err(Error(ErrorCode::ErrorNsupAttr)));
}

#[test]
fn unrecognized_code_is_dropped() {
    let mut reg = Registry::new();
    let (tx, rx, wakes) = job_channel();
    assert!(reg.add_job(JobID(5), tx, wakes).is_none());
    for status in [0x3FFF0002, 0x3FFF0098, 0x12345, -2] {
        assert_eq!(reg.triage(JobID(5), status), EventTriage::Unrecognized);
        let h = reg.handle_event(JobID(5), status, None);
        assert_eq!(h.handler_status, HANDLER_SUCCESS);
        assert!(h.delivery.is_none());
    }
    assert!(reg.is_live(JobID(5)));
    assert_eq!(rx.try_recv(), Err(TryRecvError::Empty));
}

#[test]
fn pending_counts_accumulate() {
    let mut reg = Registry::new();
    assert!(reg.complete(JobID(12), Ok(5)).is_none());
    assert!(reg.complete(JobID(12), Ok(7)).is_none());
    let (tx, rx, wakes) = job_channel();
    deliver(reg.add_job(JobID(12), tx, wakes).expect("merged"));
    assert_eq!(rx.try_recv().unwrap(), Ok(12));
}

#[test]
fn pending_counts_saturate() {
    let mut reg = Registry::new();
    assert!(reg.add_pending(JobID(13), Ok(usize::MAX - 1)).is_none());
    assert!(reg.add_pending(JobID(13), Ok(5)).is_none());
    let (tx, rx, wakes) = job_channel();
    deliver(reg.add_job(JobID(13), tx, wakes).expect("merged"));
    assert_eq!(rx.try_recv().unwrap(), Ok(usize::MAX));
}

#[test]
fn pending_first_error_wins() {
    let mut reg = Registry::new();
    assert!(reg.add_pending(JobID(14), Ok(3)).is_none());
    assert!(reg.add_pending(JobID(14), Err(Error(ErrorCode::ErrorTmo))).is_none());
    assert!(reg.add_pending(JobID(14), Err(Error(ErrorCode::ErrorAbort))).is_none());
    assert!(reg.add_pending(JobID(14), Ok(4)).is_none());
    let (tx, rx, wakes) = job_channel();
    deliver(reg.add_job(JobID(14), tx, wakes).expect("merged"));
    assert_eq!(rx.try_recv().unwrap(), Err(Error(ErrorCode::ErrorTmo)));
}

#[test]
fn add_pending_merges_with_live_job() {
    let mut reg = Registry::new();
    let (tx, rx, wakes) = job_channel();
    assert!(reg.add_job(JobID(15), tx, wakes).is_none());
    deliver(reg.add_pending(JobID(15), Ok(8)).expect("merged"));
    assert_eq!(rx.try_recv().unwrap(), Ok(8));
    assert!(!reg.is_live(JobID(15)));
    assert!(!reg.has_pending(JobID(15)));
}

#[test]
fn dispatch_delivers_once() {
    let mut reg = Registry::new();
    let (tx, rx, wakes) = job_channel();
    assert!(reg.add_job(JobID(16), tx, wakes.clone()).is_none());
    deliver(reg.dispatch(JobID(16), Ok(2)).expect("delivery"));
    // A second completion for the same id finds no registration.
    assert!(reg.complete(JobID(16), Ok(3)).is_none());
    assert_eq!(rx.try_recv().unwrap(), Ok(2));
    assert_eq!(rx.try_recv(), Err(TryRecvError::Disconnected));
    assert_eq!(wakes.load(Ordering::SeqCst), 1);
}

#[test]
fn interleavings_deliver_exactly_once() {
    // registration first, then two completions
    let mut reg = Registry::new();
    let (tx, rx, w) = job_channel();
    let mut n = 0;
    if let Some(d) = reg.add_job(JobID(1), tx, w.clone()) {
        deliver(d);
        n += 1;
    }
    for r in [Ok(4), Ok(9)] {
        if let Some(d) = reg.complete(JobID(1), r) {
            deliver(d);
            n += 1;
        }
    }
    assert_eq!(n, 1);
    assert_eq!(rx.try_recv().unwrap(), Ok(4));

    // completion first, registration second
    let mut reg = Registry::new();
    let (tx, rx, w) = job_channel();
    let mut n = 0;
    if let Some(d) = reg.complete(JobID(1), Ok(4)) {
        deliver(d);
        n += 1;
    }
    if let Some(d) = reg.add_job(JobID(1), tx, w.clone()) {
        deliver(d);
        n += 1;
    }
    assert_eq!(n, 1);
    assert_eq!(rx.try_recv().unwrap(), Ok(4));
}

#[test]
fn reissued_id_is_no_longer_cancelled() {
    let mut reg = Registry::new();
    let (tx, _rx, w) = job_channel();
    assert!(reg.add_job(JobID(30), tx, w).is_none());
    reg.remove_job(JobID(30));
    assert!(reg.is_cancelled(JobID(30)));
    let (tx, rx, w) = job_channel();
    assert!(reg.add_job(JobID(30), tx, w).is_none());
    assert!(!reg.is_cancelled(JobID(30)));
    deliver(reg.handle_event(JobID(30), SUCCESS, Some(Ok(1))).delivery.expect("delivery"));
    assert_eq!(rx.try_recv().unwrap(), Ok(1));
}
