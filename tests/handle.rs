use visa_rs::event::{Event, EventFilter, EventKind, Mechanism};
use visa_rs::handle::HandlerInstall;
use visa_rs::session::{AsRawSs, AsSs, BorrowedSs};
use visa_rs::JobID;

#[test]
fn teardown_twice_releases_once() {
    let mut h = HandlerInstall::installed(0x1000);
    assert!(h.is_installed());
    assert_eq!(h.teardown(), Some(0x1000));
    assert!(!h.is_installed());
    assert_eq!(h.teardown(), None);
}

#[test]
fn event_kinds_and_values() {
    let e = Event::new(17, 0x3FFF2009);
    assert_eq!(e.kind(), EventKind::IoCompletion);
    assert_eq!(e.as_raw_ss(), 17);
    assert_eq!(EventKind::from_raw(0xBFFF200E), Some(EventKind::Exception));
    assert_eq!(EventKind::from_raw(1), None);
    assert_eq!(EventKind::ServiceReq.raw(), 0x3FFF200B);
    assert_eq!(Mechanism::Queue.raw(), 1);
    assert_eq!(Mechanism::Handler.raw(), 2);
    assert_eq!(Mechanism::SuspendHandler.raw(), 4);
    assert_eq!(Mechanism::AllMech.raw(), 0xFFFF);
    assert_eq!(EventFilter::Null.raw(), 0);
}

#[test]
fn borrowed_session_and_null_job() {
    let s = BorrowedSs::borrow_raw(42);
    assert_eq!(s.as_raw_ss(), 42);
    assert_eq!(s.as_ss().as_raw_ss(), 42);
    assert_eq!(JobID::null(), JobID(0));
}
