use vstd::prelude::*;

use crate::status::{CompletionCode, ErrorCode};

verus! {

/// An error reported by the native layer, wrapping its status code verbatim.
#[derive(Debug, Clone, Copy, PartialEq, Eq, Structural, PartialOrd, Ord, Hash)]
pub struct Error(pub ErrorCode);

/// Result of an operation of this crate.
pub type Result<T> = core::result::Result<T, Error>;

impl From<ErrorCode> for Error {
    fn from(s: ErrorCode) -> (r: Error)
        ensures
            r.0 == s,
    {
        Error(s)
    }
}

impl vstd::std_specs::convert::FromSpecImpl<ErrorCode> for Error {
    open spec fn obeys_from_spec() -> bool {
        true
    }

    open spec fn from_spec(v: ErrorCode) -> Error {
        Error(v)
    }
}

impl From<Error> for ErrorCode {
    fn from(s: Error) -> (r: ErrorCode)
        ensures
            r == s.0,
    {
        s.0
    }
}

impl vstd::std_specs::convert::FromSpecImpl<Error> for ErrorCode {
    open spec fn obeys_from_spec() -> bool {
        true
    }

    open spec fn from_spec(v: Error) -> ErrorCode {
        v.0
    }
}

impl Error {
    /// The native status value of the wrapped code.
    pub fn status(self) -> (r: i32)
        ensures
            r == self.0.spec_status(),
    {
        self.0.status()
    }
}

/// How the native layer's status value `s` reads: a non-negative value is a
/// completion code, a negative one an error code; `None` for a value that is
/// neither.
pub open spec fn spec_check_status(s: i32) -> Option<Result<CompletionCode>> {
    if s >= 0 {
        match CompletionCode::spec_from_status(s) {
            Some(c) => Some(Ok(c)),
            None => None,
        }
    } else {
        match ErrorCode::spec_from_status(s) {
            Some(e) => Some(Err(Error(e))),
            None => None,
        }
    }
}

/// Reads the status value `s` returned by a native call.
pub fn check_status(s: i32) -> (r: Option<Result<CompletionCode>>)
    ensures
        r == spec_check_status(s),
{
    if s >= 0 {
        match CompletionCode::from_status(s) {
            Some(c) => Some(Ok(c)),
            None => None,
        }
    } else {
        match ErrorCode::from_status(s) {
            Some(e) => Some(Err(Error(e))),
            None => None,
        }
    }
}

/// Raised when a fixed-size native string buffer holds no terminating NUL byte.
#[derive(Debug, Clone, Copy, PartialEq, Eq, Structural)]
pub struct FromBytesWithNulError;

/// The generic I/O error kinds that native errors are mapped to at the
/// byte-stream boundary.
#[derive(Debug, Clone, Copy, PartialEq, Eq, Structural, Hash)]
pub enum IoErrorKind {
    AddrNotAvailable,
    Unsupported,
    ConnectionRefused,
    TimedOut,
    InvalidData,
    BrokenPipe,
    InvalidInput,
    PermissionDenied,
    Other,
    /// Whatever kind the operating system's most recent error has; the I/O
    /// layer resolves it when it builds the final error value.
    LastOsError,
}

/// What an [`IoError`] carries besides its kind.
#[derive(Debug, Clone, Copy, PartialEq, Eq, Structural)]
pub enum ErrorSource {
    /// An error of the native layer.
    Visa(Error),
    /// A malformed native string.
    NulBytes(FromBytesWithNulError),
    /// Anything else.
    Foreign,
}

/// A generic I/O error: a kind from the fixed taxonomy plus its source.
#[derive(Debug, Clone, Copy, PartialEq, Eq, Structural)]
pub struct IoError {
    pub kind: IoErrorKind,
    pub source: ErrorSource,
}

impl IoError {
    pub fn new(kind: IoErrorKind, source: ErrorSource) -> (r: IoError)
        ensures
            r.kind == kind,
            r.source == source,
    {
        IoError { kind, source }
    }
}

/// The mapping table from native error codes to generic I/O error kinds.
/// A code outside the table has no kind.
pub open spec fn spec_io_kind(code: ErrorCode) -> Option<IoErrorKind> {
    match code {
        ErrorCode::ErrorInvObject => Some(IoErrorKind::AddrNotAvailable),
        ErrorCode::ErrorNsupOper => Some(IoErrorKind::Unsupported),
        ErrorCode::ErrorRsrcLocked => Some(IoErrorKind::ConnectionRefused),
        ErrorCode::ErrorTmo => Some(IoErrorKind::TimedOut),
        ErrorCode::ErrorRawWrProtViol => Some(IoErrorKind::InvalidData),
        ErrorCode::ErrorRawRdProtViol => Some(IoErrorKind::InvalidData),
        ErrorCode::ErrorInpProtViol => Some(IoErrorKind::BrokenPipe),
        ErrorCode::ErrorOutpProtViol => Some(IoErrorKind::BrokenPipe),
        ErrorCode::ErrorBerr => Some(IoErrorKind::BrokenPipe),
        ErrorCode::ErrorInvSetup => Some(IoErrorKind::InvalidInput),
        ErrorCode::ErrorNcic => Some(IoErrorKind::PermissionDenied),
        ErrorCode::ErrorNlisteners => Some(IoErrorKind::Other),
        ErrorCode::ErrorAsrlParity => Some(IoErrorKind::Other),
        ErrorCode::ErrorAsrlFraming => Some(IoErrorKind::Other),
        ErrorCode::ErrorAsrlOverrun => Some(IoErrorKind::Other),
        ErrorCode::ErrorConnLost => Some(IoErrorKind::BrokenPipe),
        ErrorCode::ErrorInvMask => Some(IoErrorKind::InvalidInput),
        ErrorCode::ErrorIo => Some(IoErrorKind::LastOsError),
        _ => None,
    }
}

/// Looks `code` up in the mapping table.
pub fn io_kind_of(code: ErrorCode) -> (r: Option<IoErrorKind>)
    ensures
        r == spec_io_kind(code),
{
    match code {
        ErrorCode::ErrorInvObject => Some(IoErrorKind::AddrNotAvailable),
        ErrorCode::ErrorNsupOper => Some(IoErrorKind::Unsupported),
        ErrorCode::ErrorRsrcLocked => Some(IoErrorKind::ConnectionRefused),
        ErrorCode::ErrorTmo => Some(IoErrorKind::TimedOut),
        ErrorCode::ErrorRawWrProtViol | ErrorCode::ErrorRawRdProtViol => Some(
            IoErrorKind::InvalidData,
        ),
        ErrorCode::ErrorInpProtViol | ErrorCode::ErrorOutpProtViol => Some(IoErrorKind::BrokenPipe),
        ErrorCode::ErrorBerr => Some(IoErrorKind::BrokenPipe),
        ErrorCode::ErrorInvSetup => Some(IoErrorKind::InvalidInput),
        ErrorCode::ErrorNcic => Some(IoErrorKind::PermissionDenied),
        ErrorCode::ErrorNlisteners => Some(IoErrorKind::Other),
        ErrorCode::ErrorAsrlParity | ErrorCode::ErrorAsrlFraming => Some(IoErrorKind::Other),
        ErrorCode::ErrorAsrlOverrun => Some(IoErrorKind::Other),
        ErrorCode::ErrorConnLost => Some(IoErrorKind::BrokenPipe),
        ErrorCode::ErrorInvMask => Some(IoErrorKind::InvalidInput),
        ErrorCode::ErrorIo => Some(IoErrorKind::LastOsError),
        _ => None,
    }
}

/// Converts a native error into a generic I/O error carrying it.
///
/// Only codes of the mapping table may be converted: a code outside it is a
/// logic error of the caller.
pub fn vs_to_io_err(err: Error) -> (r: IoError)
    requires
        spec_io_kind(err.0) is Some,
    ensures
        r.kind == spec_io_kind(err.0).unwrap(),
        r.source == ErrorSource::Visa(err),
{
    match io_kind_of(err.0) {
        Some(kind) => IoError::new(kind, ErrorSource::Visa(err)),
        None => vstd::pervasive::unreached(),
    }
}

/// Recovers the native error carried by an I/O error made by [`vs_to_io_err`].
pub fn io_to_vs_err(e: IoError) -> (r: Error)
    requires
        e.source is Visa,
    ensures
        e.source == ErrorSource::Visa(r),
{
    match e.source {
        ErrorSource::Visa(v) => v,
        ErrorSource::NulBytes(_) | ErrorSource::Foreign => vstd::pervasive::unreached(),
    }
}

impl TryFrom<IoError> for Error {
    type Error = IoError;

    fn try_from(value: IoError) -> (r: core::result::Result<Error, IoError>)
        ensures
            r == spec_error_of_io(value),
    {
        match value.source {
            ErrorSource::Visa(v) => Ok(v),
            ErrorSource::NulBytes(_) | ErrorSource::Foreign => Err(value),
        }
    }
}

/// The native error an I/O error carries, or the I/O error itself when it
/// carries none.
pub open spec fn spec_error_of_io(value: IoError) -> core::result::Result<Error, IoError> {
    match value.source {
        ErrorSource::Visa(v) => Ok(v),
        _ => Err(value),
    }
}

impl vstd::std_specs::convert::TryFromSpecImpl<IoError> for Error {
    open spec fn obeys_try_from_spec() -> bool {
        true
    }

    open spec fn try_from_spec(v: IoError) -> core::result::Result<Error, IoError> {
        spec_error_of_io(v)
    }
}

} // verus!
