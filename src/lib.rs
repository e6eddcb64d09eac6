//! Verified core of a VISA instrument-control binding: the bookkeeping that
//! turns native I/O-completion callbacks into one-shot asynchronous results.
//!
//! The native layer (sessions, event handlers, asynchronous reads and writes)
//! is driven from outside this crate; everything here works on plain values
//! handed over by that layer and returns the decisions it has to carry out:
//!
//! - [`registry`]: the completion registry shared by the event handler and
//!   the waiting tasks, with its recently-cancelled set ([`cancelled`]);
//! - [`operation`]: single-use asynchronous reads and writes;
//! - [`adapter`]: a byte-stream view over those one-shot jobs;
//! - [`handle`]: the install record of the completion handler;
//! - [`status`], [`error`], [`event`], [`session`], [`job`]: native codes,
//!   errors, events and handles.

pub mod adapter;
pub mod cancelled;
pub mod error;
pub mod event;
pub mod handle;
pub mod job;
pub mod operation;
pub mod registry;
pub mod scratch;
pub mod session;
pub mod status;

pub use error::{io_to_vs_err, vs_to_io_err, Error, FromBytesWithNulError, Result};
pub use event::{Event, EventFilter, EventKind, Mechanism};
pub use job::JobID;
pub use operation::{AsyncRead, AsyncWrite};
