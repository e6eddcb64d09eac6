use vstd::prelude::*;

use crate::error::{Error, Result};
use crate::job::JobID;
use crate::registry::{CompletionRegistry, Delivery, RegistryState};
use crate::status::ErrorCode;

verus! {

/// Progress of a single-use asynchronous operation.
#[derive(Debug, Clone, Copy, PartialEq, Eq, Structural)]
pub enum OpState {
    /// Not polled yet: the native call has not been issued.
    NotStarted,
    /// The native call was issued as this job and its completion is awaited.
    Awaiting(JobID),
    /// Resolved, or cancelled: nothing more happens.
    Finished,
}

/// Outcome of a non-blocking receive on an operation's completion channel.
#[derive(Debug, Clone, Copy)]
pub enum Received {
    /// A completion result was there.
    Value(Result<usize>),
    /// Nothing yet.
    Empty,
    /// The producer side was dropped without sending.
    Disconnected,
}

/// Outcome of polling an operation.
#[derive(Debug, Clone, Copy)]
pub enum OpPoll {
    Ready(Result<usize>),
    Pending,
}

/// Outcome of the first poll of an operation.
pub enum Started<S, W> {
    /// The native call failed synchronously; no job was registered.
    Failed(Error),
    /// The job was registered; a completion that had already arrived is
    /// handed back for delivery.
    Registered(Option<Delivery<S, W>>),
}

/// The error an operation resolves to when its completion channel is found
/// disconnected.
pub open spec fn spec_connection_lost() -> Error {
    Error(ErrorCode::ErrorConnLost)
}

/// First poll: the state reached after issuing the native call with outcome
/// `issued`.
pub open spec fn spec_start(issued: Result<JobID>) -> OpState {
    match issued {
        Ok(j) => OpState::Awaiting(j),
        Err(_) => OpState::Finished,
    }
}

/// The registry after the first poll.
pub open spec fn spec_start_registry<S, W>(
    reg: RegistryState<S, W>,
    issued: Result<JobID>,
    sender: S,
    waker: W,
) -> (RegistryState<S, W>, Option<Delivery<S, W>>) {
    match issued {
        Ok(j) => reg.add_job(j, sender, waker),
        Err(_) => (reg, None),
    }
}

/// Later polls: state and poll outcome after a receive attempt.
pub open spec fn spec_receive(s: OpState, recv: Received) -> (OpState, OpPoll) {
    match recv {
        Received::Value(r) => (OpState::Finished, OpPoll::Ready(r)),
        Received::Empty => (s, OpPoll::Pending),
        Received::Disconnected => (OpState::Finished, OpPoll::Ready(Err(spec_connection_lost()))),
    }
}

/// Dropping an operation in state `s`: an awaited job is removed from the
/// registry and returned for termination; in any other state nothing happens.
pub open spec fn spec_cancel<S, W>(s: OpState, reg: RegistryState<S, W>) -> (
    OpState,
    RegistryState<S, W>,
    Option<JobID>,
) {
    match s {
        OpState::Awaiting(j) => (OpState::Finished, reg.remove_job(j), Some(j)),
        _ => (s, reg, None),
    }
}

fn start_op<S, W>(
    state: &mut OpState,
    reg: &mut CompletionRegistry<S, W>,
    issued: Result<JobID>,
    sender: S,
    waker: W,
) -> (r: Started<S, W>)
    requires
        *old(state) == OpState::NotStarted,
        old(reg).wf(),
        issued matches Ok(j) ==> !old(reg)@.live.contains_key(j.0),
    ensures
        *final(state) == spec_start(issued),
        final(reg).wf(),
        match r {
            Started::Failed(e) => issued == Err::<JobID, Error>(e) && final(reg)@ == old(reg)@,
            Started::Registered(d) => issued is Ok && (final(reg)@, d) == spec_start_registry(
                old(reg)@,
                issued,
                sender,
                waker,
            ),
        },
{
    match issued {
        Ok(j) => {
            *state = OpState::Awaiting(j);
            let d = reg.add_job(j, sender, waker);
            Started::Registered(d)
        },
        Err(e) => {
            *state = OpState::Finished;
            Started::Failed(e)
        },
    }
}

fn receive_op(state: &mut OpState, recv: Received) -> (p: OpPoll)
    requires
        *old(state) is Awaiting,
    ensures
        (*final(state), p) == spec_receive(*old(state), recv),
{
    match recv {
        Received::Value(r) => {
            *state = OpState::Finished;
            OpPoll::Ready(r)
        },
        Received::Empty => OpPoll::Pending,
        Received::Disconnected => {
            *state = OpState::Finished;
            OpPoll::Ready(Err(Error(ErrorCode::ErrorConnLost)))
        },
    }
}

fn cancel_op<S, W>(state: &mut OpState, reg: &mut CompletionRegistry<S, W>) -> (t: Option<JobID>)
    requires
        old(reg).wf(),
    ensures
        final(reg).wf(),
        (*final(state), final(reg)@, t) == spec_cancel(*old(state), old(reg)@),
{
    match *state {
        OpState::Awaiting(j) => {
            reg.remove_job(j);
            *state = OpState::Finished;
            Some(j)
        },
        _ => None,
    }
}

/// An asynchronous read: a single-use operation that on its first poll issues
/// the native read into the caller's buffer and registers the job, and on
/// later polls drains its completion channel.
///
/// The caller's buffer must stay alive and unmoved until the operation
/// resolves or is dropped, and should not be reused while a terminated job
/// may still be writing into it: terminating a job is best effort.
pub struct AsyncRead {
    state: OpState,
}

/// An asynchronous write, driven like [`AsyncRead`].
pub struct AsyncWrite {
    state: OpState,
}

impl View for AsyncRead {
    type V = OpState;

    closed spec fn view(&self) -> OpState {
        self.state
    }
}

impl View for AsyncWrite {
    type V = OpState;

    closed spec fn view(&self) -> OpState {
        self.state
    }
}

impl AsyncRead {
    pub fn new() -> (r: AsyncRead)
        ensures
            r@ == OpState::NotStarted,
    {
        AsyncRead { state: OpState::NotStarted }
    }

    pub fn state(&self) -> (r: OpState)
        ensures
            r == self@,
    {
        self.state
    }

    /// First poll, after the native read was issued with outcome `issued`:
    /// a synchronous failure resolves the operation to that error without
    /// registering anything; a job identifier is registered with the
    /// producer side of the operation's channel and its waker.
    pub fn start<S, W>(
        &mut self,
        reg: &mut CompletionRegistry<S, W>,
        issued: Result<JobID>,
        sender: S,
        waker: W,
    ) -> (r: Started<S, W>)
        requires
            old(self)@ == OpState::NotStarted,
            old(reg).wf(),
            issued matches Ok(j) ==> !old(reg)@.live.contains_key(j.0),
        ensures
            final(self)@ == spec_start(issued),
            final(reg).wf(),
            match r {
                Started::Failed(e) => issued == Err::<JobID, Error>(e) && final(reg)@ == old(reg)@,
                Started::Registered(d) => issued is Ok && (final(reg)@, d) == spec_start_registry(
                    old(reg)@,
                    issued,
                    sender,
                    waker,
                ),
            },
    {
        start_op(&mut self.state, reg, issued, sender, waker)
    }

    /// Later poll, after a non-blocking receive on the channel: a value
    /// resolves the operation; nothing yet leaves it pending; a disconnected
    /// channel resolves it to a connection-lost error.
    pub fn poll_received(&mut self, recv: Received) -> (p: OpPoll)
        requires
            old(self)@ is Awaiting,
        ensures
            (final(self)@, p) == spec_receive(old(self)@, recv),
    {
        receive_op(&mut self.state, recv)
    }

    /// Drop before completion: the job is removed from the registry (and
    /// marked cancelled), and its identifier is returned for the one native
    /// terminate call. Otherwise nothing happens.
    pub fn cancel<S, W>(&mut self, reg: &mut CompletionRegistry<S, W>) -> (t: Option<JobID>)
        requires
            old(reg).wf(),
        ensures
            final(reg).wf(),
            (final(self)@, final(reg)@, t) == spec_cancel(old(self)@, old(reg)@),
    {
        cancel_op(&mut self.state, reg)
    }
}

impl AsyncWrite {
    pub fn new() -> (r: AsyncWrite)
        ensures
            r@ == OpState::NotStarted,
    {
        AsyncWrite { state: OpState::NotStarted }
    }

    pub fn state(&self) -> (r: OpState)
        ensures
            r == self@,
    {
        self.state
    }

    /// First poll, after the native write was issued with outcome `issued`;
    /// see [`AsyncRead::start`].
    pub fn start<S, W>(
        &mut self,
        reg: &mut CompletionRegistry<S, W>,
        issued: Result<JobID>,
        sender: S,
        waker: W,
    ) -> (r: Started<S, W>)
        requires
            old(self)@ == OpState::NotStarted,
            old(reg).wf(),
            issued matches Ok(j) ==> !old(reg)@.live.contains_key(j.0),
        ensures
            final(self)@ == spec_start(issued),
            final(reg).wf(),
            match r {
                Started::Failed(e) => issued == Err::<JobID, Error>(e) && final(reg)@ == old(reg)@,
                Started::Registered(d) => issued is Ok && (final(reg)@, d) == spec_start_registry(
                    old(reg)@,
                    issued,
                    sender,
                    waker,
                ),
            },
    {
        start_op(&mut self.state, reg, issued, sender, waker)
    }

    /// Later poll; see [`AsyncRead::poll_received`].
    pub fn poll_received(&mut self, recv: Received) -> (p: OpPoll)
        requires
            old(self)@ is Awaiting,
        ensures
            (final(self)@, p) == spec_receive(old(self)@, recv),
    {
        receive_op(&mut self.state, recv)
    }

    /// Drop before completion; see [`AsyncRead::cancel`].
    pub fn cancel<S, W>(&mut self, reg: &mut CompletionRegistry<S, W>) -> (t: Option<JobID>)
        requires
            old(reg).wf(),
        ensures
            final(reg).wf(),
            (final(self)@, final(reg)@, t) == spec_cancel(old(self)@, old(reg)@),
    {
        cancel_op(&mut self.state, reg)
    }
}

/// Dropping an operation that awaits its job leaves no live registration
/// (and no stray early completion) for the job and yields exactly one
/// terminate request for it; the operation is then finished, so dropping it
/// again yields none.
pub proof fn lemma_drop_terminates_once<S, W>(reg: RegistryState<S, W>, j: JobID)
    ensures
        ({
            let (s1, r1, t1) = spec_cancel(OpState::Awaiting(j), reg);
            let (s2, r2, t2) = spec_cancel(s1, r1);
            &&& t1 == Some(j)
            &&& !r1.live.contains_key(j.0)
            &&& !r1.pending.contains_key(j.0)
            &&& t2 is None
            &&& r2 == r1
        }),
{
}

} // verus!
