use vstd::prelude::*;

use bytes::BytesMut;

use crate::error::{Error, Result};
use crate::job::JobID;
use crate::operation::{spec_connection_lost, Received};
use crate::scratch::{
    bytes_of, scratch_clear, scratch_extend, scratch_len, scratch_new, scratch_prefix,
    scratch_resize,
};
use crate::status::ErrorCode;

verus! {

/// A job in flight in one direction of a stream, with the handle `R` the
/// I/O layer uses to receive its completion.
pub struct InFlight<R> {
    pub job: JobID,
    pub handle: R,
}

/// What to do next when the stream is asked to read or write.
#[derive(Debug, Clone, Copy, PartialEq, Eq, Structural)]
pub enum StartStep {
    /// A job of this direction is already in flight: poll it.
    InFlight,
    /// Nothing was asked for: the call resolves at once (zero bytes).
    Empty,
    /// The scratch buffer is ready: issue the native call on it.
    Issue,
}

/// Outcome of polling a stream read.
#[derive(Debug)]
pub enum ReadPoll {
    /// The bytes read, for the caller's output buffer.
    Ready(Result<Vec<u8>>),
    Pending,
}

/// Outcome of polling a stream write.
#[derive(Debug, Clone, Copy)]
pub enum WritePoll {
    /// The number of bytes written.
    Ready(Result<usize>),
    Pending,
}

/// The bytes handed to the caller when a read of `n` bytes completes on a
/// scratch buffer holding `scratch`: at most as many as the buffer holds.
pub open spec fn spec_read_output(scratch: Seq<u8>, n: usize) -> Seq<u8> {
    if n <= scratch.len() {
        scratch.take(n as int)
    } else {
        scratch
    }
}

/// Generic byte-stream state over one-shot native jobs: at most one read and
/// one write in flight, each with a scratch buffer owned by the stream so that
/// it outlives the caller's transient buffers across polls.
///
/// The native layer writes into `read_buf` while a read is in flight and
/// reads from `write_buf` while a write is in flight.
pub struct StreamAdapter<R> {
    read_current: Option<InFlight<R>>,
    write_current: Option<InFlight<R>>,
    read_buf: BytesMut,
    write_buf: BytesMut,
}

impl<R> StreamAdapter<R> {
    /// The read in flight, if any.
    pub closed spec fn reading(&self) -> Option<InFlight<R>> {
        self.read_current
    }

    /// The write in flight, if any.
    pub closed spec fn writing(&self) -> Option<InFlight<R>> {
        self.write_current
    }

    /// Contents of the read scratch buffer.
    pub closed spec fn read_scratch(&self) -> Seq<u8> {
        bytes_of(self.read_buf)
    }

    /// Contents of the write scratch buffer.
    pub closed spec fn write_scratch(&self) -> Seq<u8> {
        bytes_of(self.write_buf)
    }

    /// The read scratch buffer, for the native read to fill.
    pub fn read_buf_mut(&mut self) -> (r: &mut BytesMut)
        ensures
            bytes_of(*r) == old(self).read_scratch(),
            final(self).read_scratch() == bytes_of(*final(r)),
            final(self).write_scratch() == old(self).write_scratch(),
            final(self).reading() == old(self).reading(),
            final(self).writing() == old(self).writing(),
    {
        &mut self.read_buf
    }

    /// The write scratch buffer, for the native write to read from.
    pub fn write_buf(&self) -> (r: &BytesMut)
        ensures
            bytes_of(*r) == self.write_scratch(),
    {
        &self.write_buf
    }

    pub fn new() -> (r: StreamAdapter<R>)
        ensures
            r.reading() is None,
            r.writing() is None,
            r.read_scratch() == Seq::<u8>::empty(),
            r.write_scratch() == Seq::<u8>::empty(),
    {
        StreamAdapter {
            read_current: None,
            write_current: None,
            read_buf: scratch_new(),
            write_buf: scratch_new(),
        }
    }

    /// The completion handle of the read in flight.
    pub fn read_handle(&self) -> (r: Option<&R>)
        ensures
            r is Some <==> self.reading() is Some,
            r matches Some(h) ==> *h == self.reading().unwrap().handle,
    {
        match &self.read_current {
            Some(f) => Some(&f.handle),
            None => None,
        }
    }

    /// The completion handle of the write in flight.
    pub fn write_handle(&self) -> (r: Option<&R>)
        ensures
            r is Some <==> self.writing() is Some,
            r matches Some(h) ==> *h == self.writing().unwrap().handle,
    {
        match &self.write_current {
            Some(f) => Some(&f.handle),
            None => None,
        }
    }

    /// Asked to read up to `requested` bytes. With no read in flight and a
    /// non-zero request, the read scratch buffer is sized to the request.
    pub fn begin_read(&mut self, requested: usize) -> (r: StartStep)
        requires
            requested <= isize::MAX,
        ensures
            final(self).reading() == old(self).reading(),
            final(self).writing() == old(self).writing(),
            final(self).write_scratch() == old(self).write_scratch(),
            old(self).reading() is Some ==> r == StartStep::InFlight && final(self).read_scratch()
                == old(self).read_scratch(),
            old(self).reading() is None && requested == 0 ==> r == StartStep::Empty
                && final(self).read_scratch() == old(self).read_scratch(),
            old(self).reading() is None && requested > 0 ==> r == StartStep::Issue && final(self).read_scratch().len()
                == requested,
    {
        if self.read_current.is_some() {
            return StartStep::InFlight;
        }
        if requested == 0 {
            return StartStep::Empty;
        }
        scratch_resize(&mut self.read_buf, requested, 0);
        StartStep::Issue
    }

    /// Records the outcome of issuing the native read on the scratch buffer:
    /// a job becomes the read in flight; a synchronous failure is returned.
    pub fn read_started(&mut self, issued: Result<InFlight<R>>) -> (r: Option<Error>)
        requires
            old(self).reading() is None,
        ensures
            final(self).writing() == old(self).writing(),
            final(self).read_scratch() == old(self).read_scratch(),
            final(self).write_scratch() == old(self).write_scratch(),
            match issued {
                Ok(f) => r is None && final(self).reading() == Some(f),
                Err(e) => r == Some(e) && final(self).reading() is None,
            },
    {
        match issued {
            Ok(f) => {
                self.read_current = Some(f);
                None
            },
            Err(e) => Some(e),
        }
    }

    /// Polls the read in flight, after a non-blocking receive on its channel.
    /// On success the first `min(count, scratch length)` bytes of the read
    /// scratch buffer are handed out; any outcome but "nothing yet" ends the
    /// read. With no read in flight it resolves at once to zero bytes.
    pub fn finish_read(&mut self, recv: Received) -> (p: ReadPoll)
        ensures
            final(self).writing() == old(self).writing(),
            final(self).read_scratch() == old(self).read_scratch(),
            final(self).write_scratch() == old(self).write_scratch(),
            old(self).reading() is None ==> final(self).reading() is None && (p matches ReadPoll::Ready(
                Ok(v),
            ) && v@.len() == 0),
            old(self).reading() is Some ==> match recv {
                Received::Value(Ok(n)) => final(self).reading() is None && (p matches ReadPoll::Ready(
                    Ok(v),
                ) && v@ == spec_read_output(old(self).read_scratch(), n)),
                Received::Value(Err(e)) => final(self).reading() is None && (p matches ReadPoll::Ready(
                    Err(x),
                ) && x == e),
                Received::Empty => final(self).reading() == old(self).reading()
                    && p is Pending,
                Received::Disconnected => final(self).reading() is None && (p matches ReadPoll::Ready(
                    Err(x),
                ) && x == spec_connection_lost()),
            },
    {
        if self.read_current.is_none() {
            return ReadPoll::Ready(Ok(Vec::new()));
        }
        match recv {
            Received::Value(Ok(n)) => {
                self.read_current = None;
                let len = scratch_len(&self.read_buf);
                let k = if n <= len {
                    n
                } else {
                    len
                };
                let v = scratch_prefix(&self.read_buf, k);
                proof {
                    if n > len {
                        assert(bytes_of(self.read_buf).take(len as int) =~= bytes_of(self.read_buf));
                    }
                }
                ReadPoll::Ready(Ok(v))
            },
            Received::Value(Err(e)) => {
                self.read_current = None;
                ReadPoll::Ready(Err(e))
            },
            Received::Empty => ReadPoll::Pending,
            Received::Disconnected => {
                self.read_current = None;
                ReadPoll::Ready(Err(Error(ErrorCode::ErrorConnLost)))
            },
        }
    }

    /// Asked to write `data`. With no write in flight and non-empty data, the
    /// data is copied into the write scratch buffer, which the native call
    /// then reads from.
    pub fn begin_write(&mut self, data: &[u8]) -> (r: StartStep)
        requires
            data@.len() <= isize::MAX,
        ensures
            final(self).reading() == old(self).reading(),
            final(self).writing() == old(self).writing(),
            final(self).read_scratch() == old(self).read_scratch(),
            old(self).writing() is Some ==> r == StartStep::InFlight && final(self).write_scratch()
                == old(self).write_scratch(),
            old(self).writing() is None && data@.len() == 0 ==> r == StartStep::Empty
                && final(self).write_scratch() == old(self).write_scratch(),
            old(self).writing() is None && data@.len() > 0 ==> r == StartStep::Issue && final(self).write_scratch()
                == data@,
    {
        if self.write_current.is_some() {
            return StartStep::InFlight;
        }
        if data.len() == 0 {
            return StartStep::Empty;
        }
        scratch_clear(&mut self.write_buf);
        scratch_extend(&mut self.write_buf, data);
        assert(Seq::<u8>::empty() + data@ =~= data@);
        StartStep::Issue
    }

    /// Records the outcome of issuing the native write on the scratch buffer.
    pub fn write_started(&mut self, issued: Result<InFlight<R>>) -> (r: Option<Error>)
        requires
            old(self).writing() is None,
        ensures
            final(self).reading() == old(self).reading(),
            final(self).read_scratch() == old(self).read_scratch(),
            final(self).write_scratch() == old(self).write_scratch(),
            match issued {
                Ok(f) => r is None && final(self).writing() == Some(f),
                Err(e) => r == Some(e) && final(self).writing() is None,
            },
    {
        match issued {
            Ok(f) => {
                self.write_current = Some(f);
                None
            },
            Err(e) => Some(e),
        }
    }

    /// Polls the write in flight, after a non-blocking receive on its channel:
    /// resolves to the transferred count or the error. With no write in flight
    /// it resolves at once to zero bytes.
    pub fn finish_write(&mut self, recv: Received) -> (p: WritePoll)
        ensures
            final(self).reading() == old(self).reading(),
            final(self).read_scratch() == old(self).read_scratch(),
            final(self).write_scratch() == old(self).write_scratch(),
            old(self).writing() is None ==> final(self).writing() is None && (p matches WritePoll::Ready(
                Ok(n),
            ) && n == 0),
            old(self).writing() is Some ==> match recv {
                Received::Value(r) => final(self).writing() is None && (p matches WritePoll::Ready(x)
                    && x == r),
                Received::Empty => final(self).writing() == old(self).writing()
                    && p is Pending,
                Received::Disconnected => final(self).writing() is None && (p matches WritePoll::Ready(
                    Err(x),
                ) && x == spec_connection_lost()),
            },
    {
        if self.write_current.is_none() {
            return WritePoll::Ready(Ok(0));
        }
        match recv {
            Received::Value(r) => {
                self.write_current = None;
                WritePoll::Ready(r)
            },
            Received::Empty => WritePoll::Pending,
            Received::Disconnected => {
                self.write_current = None;
                WritePoll::Ready(Err(Error(ErrorCode::ErrorConnLost)))
            },
        }
    }

    /// Takes the jobs in flight out of the stream, read first, so that each
    /// can be cancelled (on drop, or before handing the instrument back).
    pub fn take_in_flight(&mut self) -> (r: (Option<JobID>, Option<JobID>))
        ensures
            final(self).reading() is None,
            final(self).writing() is None,
            final(self).read_scratch() == old(self).read_scratch(),
            final(self).write_scratch() == old(self).write_scratch(),
            r.0 == match old(self).reading() {
                Some(f) => Some(f.job),
                None => None::<JobID>,
            },
            r.1 == match old(self).writing() {
                Some(f) => Some(f.job),
                None => None::<JobID>,
            },
    {
        let r = match self.read_current.take() {
            Some(f) => Some(f.job),
            None => None,
        };
        let w = match self.write_current.take() {
            Some(f) => Some(f.job),
            None => None,
        };
        (r, w)
    }
}

/// Loopback round trip: data accepted by a write is exactly what sits in the
/// write scratch buffer; when a loopback native layer echoes that buffer into
/// the read scratch buffer of a read of the same length and reports that
/// count, the read hands out exactly the bytes that were written.
pub proof fn lemma_loopback_round_trip(data: Seq<u8>, written: Seq<u8>, echoed: Seq<u8>, n: usize)
    requires
        written == data,
        echoed == written,
        n == data.len(),
    ensures
        spec_read_output(echoed, n) == data,
{
    assert(data.take(n as int) =~= data);
}

} // verus!
