use visa_rs::adapter::{InFlight, ReadPoll, StartStep, StreamAdapter, WritePoll};
use visa_rs::operation::Received;
use visa_rs::status::ErrorCode;
use visa_rs::{Error, JobID};

#[test]
fn loopback_round_trip() {
    let mut a: StreamAdapter<u8> = StreamAdapter::new();
    let data = b"*IDN?\n".to_vec();

    assert_eq!(a.begin_write(&data), StartStep::Issue);
    // the loopback native layer keeps what the write hands it
    let echoed = a.write_buf().to_vec();
    assert_eq!(a.write_started(Ok(InFlight { job: JobID(1), handle: 0 })), None);
    assert_eq!(a.begin_write(b"other"), StartStep::InFlight);
    match a.finish_write(Received::Value(Ok(echoed.len()))) {
        WritePoll::Ready(r) => assert_eq!(r, Ok(data.len())),
        WritePoll::Pending => panic!("pending"),
    }

    assert_eq!(a.begin_read(data.len()), StartStep::Issue);
    assert_eq!(a.read_buf_mut().len(), data.len());
    // ... and echoes it into the read
    a.read_buf_mut().copy_from_slice(&echoed);
    assert_eq!(a.read_started(Ok(InFlight { job: JobID(2), handle: 1 })), None);
    assert_eq!(a.read_handle(), Some(&1));
    match a.finish_read(Received::Value(Ok(data.len()))) {
        ReadPoll::Ready(r) => assert_eq!(r, Ok(data)),
        ReadPoll::Pending => panic!("pending"),
    }
    assert_eq!(a.read_handle(), None);
}

#[test]
fn zero_length_requests_resolve_at_once() {
    let mut a: StreamAdapter<u8> = StreamAdapter::new();
    assert_eq!(a.begin_read(0), StartStep::Empty);
    assert_eq!(a.begin_write(&[]), StartStep::Empty);
    match a.finish_read(Received::Empty) {
        ReadPoll::Ready(r) => assert_eq!(r, Ok(vec![])),
        ReadPoll::Pending => panic!("pending"),
    }
    match a.finish_write(Received::Empty) {
        WritePoll::Ready(r) => assert_eq!(r, Ok(0)),
        WritePoll::Pending => panic!("pending"),
    }
}

#[test]
fn read_count_is_clamped_to_scratch() {
    let mut a: StreamAdapter<u8> = StreamAdapter::new();
    assert_eq!(a.begin_read(3), StartStep::Issue);
    a.read_buf_mut().copy_from_slice(b"abc");
    assert_eq!(a.read_started(Ok(InFlight { job: JobID(3), handle: 0 })), None);
    assert!(matches!(a.finish_read(Received::Empty), ReadPoll::Pending));
    match a.finish_read(Received::Value(Ok(10))) {
        ReadPoll::Ready(r) => assert_eq!(r, Ok(b"abc".to_vec())),
        ReadPoll::Pending => panic!("pending"),
    }
    assert_eq!(a.begin_read(5), StartStep::Issue);
    a.read_buf_mut().copy_from_slice(b"vwxyz");
    assert_eq!(a.read_started(Ok(InFlight { job: JobID(4), handle: 0 })), None);
    match a.finish_read(Received::Value(Ok(2))) {
        ReadPoll::Ready(r) => assert_eq!(r, Ok(b"vw".to_vec())),
        ReadPoll::Pending => panic!("pending"),
    }
}

#[test]
fn write_scratch_holds_only_the_latest_data() {
    let mut a: StreamAdapter<u8> = StreamAdapter::new();
    assert_eq!(a.begin_write(b"longer data"), StartStep::Issue);
    assert_eq!(a.write_started(Err(Error(ErrorCode::ErrorInProgress))), Some(Error(ErrorCode::ErrorInProgress)));
    assert_eq!(a.write_handle(), None);
    assert_eq!(a.begin_write(b"short"), StartStep::Issue);
    assert_eq!(&a.write_buf()[..], b"short");
}

#[test]
fn errors_and_disconnection_end_the_job() {
    let mut a: StreamAdapter<u8> = StreamAdapter::new();
    assert_eq!(a.begin_read(4), StartStep::Issue);
    assert_eq!(a.read_started(Ok(InFlight { job: JobID(5), handle: 0 })), None);
    match a.finish_read(Received::Value(Err(Error(ErrorCode::ErrorTmo)))) {
        ReadPoll::Ready(r) => assert_eq!(r, Err(Error(ErrorCode::ErrorTmo))),
        ReadPoll::Pending => panic!("pending"),
    }
    assert_eq!(a.begin_write(b"x"), StartStep::Issue);
    assert_eq!(a.write_started(Ok(InFlight { job: JobID(6), handle: 0 })), None);
    match a.finish_write(Received::Disconnected) {
        WritePoll::Ready(r) => assert_eq!(r, Err(Error(ErrorCode::ErrorConnLost))),
        WritePoll::Pending => panic!("pending"),
    }
}

#[test]
fn in_flight_jobs_are_handed_out_for_cancellation() {
    let mut a: StreamAdapter<u8> = StreamAdapter::new();
    assert_eq!(a.begin_read(2), StartStep::Issue);
    assert_eq!(a.read_started(Ok(InFlight { job: JobID(7), handle: 0 })), None);
    assert_eq!(a.begin_write(b"y"), StartStep::Issue);
    assert_eq!(a.write_started(Ok(InFlight { job: JobID(8), handle: 0 })), None);
    assert_eq!(a.take_in_flight(), (Some(JobID(7)), Some(JobID(8))));
    assert_eq!(a.take_in_flight(), (None, None));
}
