use visa_rs::error::{check_status, io_kind_of, ErrorSource, IoError, IoErrorKind};
use visa_rs::status::{is_transfer_status, CompletionCode, ErrorCode};
use visa_rs::{io_to_vs_err, vs_to_io_err, Error, FromBytesWithNulError};

#[test]
fn convert_io_error() {
    let vs_error = Error(ErrorCode::ErrorTmo);
    let io_error = vs_to_io_err(vs_error);
    assert_eq!(Error::try_from(io_error).unwrap(), vs_error);
    let no_vs_io_error =
        IoError::new(IoErrorKind::Other, ErrorSource::NulBytes(FromBytesWithNulError));
    assert!(Error::try_from(no_vs_io_error).is_err());
}

#[test]
fn io_kind_table() {
    assert_eq!(io_kind_of(ErrorCode::ErrorInvObject), Some(IoErrorKind::AddrNotAvailable));
    assert_eq!(io_kind_of(ErrorCode::ErrorNsupOper), Some(IoErrorKind::Unsupported));
    assert_eq!(io_kind_of(ErrorCode::ErrorRsrcLocked), Some(IoErrorKind::ConnectionRefused));
    assert_eq!(io_kind_of(ErrorCode::ErrorTmo), Some(IoErrorKind::TimedOut));
    assert_eq!(io_kind_of(ErrorCode::ErrorRawWrProtViol), Some(IoErrorKind::InvalidData));
    assert_eq!(io_kind_of(ErrorCode::ErrorRawRdProtViol), Some(IoErrorKind::InvalidData));
    assert_eq!(io_kind_of(ErrorCode::ErrorInpProtViol), Some(IoErrorKind::BrokenPipe));
    assert_eq!(io_kind_of(ErrorCode::ErrorOutpProtViol), Some(IoErrorKind::BrokenPipe));
    assert_eq!(io_kind_of(ErrorCode::ErrorBerr), Some(IoErrorKind::BrokenPipe));
    assert_eq!(io_kind_of(ErrorCode::ErrorInvSetup), Some(IoErrorKind::InvalidInput));
    assert_eq!(io_kind_of(ErrorCode::ErrorNcic), Some(IoErrorKind::PermissionDenied));
    assert_eq!(io_kind_of(ErrorCode::ErrorNlisteners), Some(IoErrorKind::Other));
    assert_eq!(io_kind_of(ErrorCode::ErrorAsrlParity), Some(IoErrorKind::Other));
    assert_eq!(io_kind_of(ErrorCode::ErrorAsrlFraming), Some(IoErrorKind::Other));
    assert_eq!(io_kind_of(ErrorCode::ErrorAsrlOverrun), Some(IoErrorKind::Other));
    assert_eq!(io_kind_of(ErrorCode::ErrorConnLost), Some(IoErrorKind::BrokenPipe));
    assert_eq!(io_kind_of(ErrorCode::ErrorInvMask), Some(IoErrorKind::InvalidInput));
    assert_eq!(io_kind_of(ErrorCode::ErrorIo), Some(IoErrorKind::LastOsError));
    assert_eq!(io_kind_of(ErrorCode::ErrorAbort), None);
    assert_eq!(io_kind_of(ErrorCode::ErrorSystemError), None);
}

#[test]
fn vs_to_io_err_carries_error() {
    let e = Error(ErrorCode::ErrorConnLost);
    let io = vs_to_io_err(e);
    assert_eq!(io.kind, IoErrorKind::BrokenPipe);
    assert_eq!(io.source, ErrorSource::Visa(e));
    assert_eq!(io_to_vs_err(io), e);
}

#[test]
fn foreign_io_error_is_not_converted() {
    let io = IoError::new(IoErrorKind::TimedOut, ErrorSource::Foreign);
    assert_eq!(Error::try_from(io), Err(io));
}

#[test]
fn error_status_values() {
    assert_eq!(ErrorCode::ErrorSystemError.status(), 0xBFFF0000u32 as i32);
    assert_eq!(ErrorCode::ErrorTmo.status(), -1073807339);
    assert_eq!(ErrorCode::ErrorConnLost.status(), -1073807194);
    assert_eq!(ErrorCode::ErrorNpermission.status(), 0xBFFF00A8u32 as i32);
    assert_eq!(Error(ErrorCode::ErrorTmo).status(), -1073807339);
    assert_eq!(ErrorCode::from_status(-1073807339), Some(ErrorCode::ErrorTmo));
    assert_eq!(ErrorCode::from_status(0xBFFF00A6u32 as i32), Some(ErrorCode::ErrorConnLost));
    assert_eq!(ErrorCode::from_status(0), None);
    assert_eq!(ErrorCode::from_status(0xBFFF0001u32 as i32), None);
}

#[test]
fn completion_status_values() {
    assert_eq!(CompletionCode::Success.status(), 0);
    assert_eq!(CompletionCode::SuccessNchain.status(), 0x3FFF0098);
    assert_eq!(CompletionCode::SuccessSync.status(), 0x3FFF009B);
    assert_eq!(CompletionCode::from_status(0x3FFF0006), Some(CompletionCode::SuccessMaxCnt));
    assert_eq!(CompletionCode::from_status(0x3FFF0001), None);
    assert_eq!(CompletionCode::from_status(-1073807339), None);
}

#[test]
fn transfer_success_set() {
    for s in [0, 0x3FFF009B, 0x3FFF0006, 0x3FFF0005, 0x3FFF0004, 0x3FFF0080, 0x3FFF000C] {
        assert!(is_transfer_status(s), "{:#x}", s);
    }
    for s in [0x3FFF0002, 0x3FFF0098, 0x3FFF0077, -1073807339, 7, -1] {
        assert!(!is_transfer_status(s), "{:#x}", s);
    }
}

#[test]
fn error_code_conversions() {
    let e: Error = ErrorCode::ErrorAbort.into();
    assert_eq!(e, Error(ErrorCode::ErrorAbort));
    let c: ErrorCode = e.into();
    assert_eq!(c, ErrorCode::ErrorAbort);
}

#[test]
fn native_status_reading() {
    assert_eq!(check_status(0), Some(Ok(CompletionCode::Success)));
    assert_eq!(check_status(0x3FFF009B), Some(Ok(CompletionCode::SuccessSync)));
    assert_eq!(check_status(-1073807339), Some(Err(Error(ErrorCode::ErrorTmo))));
    assert_eq!(check_status(0x3FFF0001), None);
    assert_eq!(check_status(-1), None);
}
