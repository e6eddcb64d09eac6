use vstd::prelude::*;

use std::collections::HashMap;

use crate::cancelled::{spec_insert, spec_without, RecentlyCancelled, CANCELLED_CAPACITY};
use crate::error::{Error, Result};
use crate::job::JobID;
use crate::status::{is_transfer_status, spec_is_transfer_status, ErrorCode};

verus! {

broadcast use vstd::std_specs::hash::group_hash_axioms;

/// Handler return status: the event was not claimed, other handlers may see it.
pub const HANDLER_SUCCESS: i32 = 0;

/// Handler return status: the event was claimed, no other handler installed
/// on the session is invoked for it.
pub const HANDLER_SUCCESS_NCHAIN: i32 = 0x3FFF0098;

/// A completion result to hand over: send `result` through `sender`, then wake
/// the task through `waker` (if that task still exists).
pub struct Delivery<S, W> {
    pub sender: S,
    pub waker: W,
    pub result: Result<usize>,
}

/// Abstract state of a completion registry.
pub struct RegistryState<S, W> {
    /// Live registrations, keyed by raw job identifier.
    pub live: Map<u32, (S, W)>,
    /// Completions that arrived before their job was registered.
    pub pending: Map<u32, Result<usize>>,
    /// Recently cancelled job identifiers, oldest first.
    pub cancelled: Seq<JobID>,
    /// Capacity of the recently cancelled set.
    pub capacity: nat,
}

/// Combines a stored early completion with a further one: byte counts add up
/// (saturating), and the first failure sticks.
pub open spec fn spec_merge(prev: Option<Result<usize>>, r: Result<usize>) -> Result<usize> {
    match prev {
        None => r,
        Some(Err(e)) => Err(e),
        Some(Ok(a)) => match r {
            Ok(b) => Ok(a.saturating_add(b)),
            Err(e) => Err(e),
        },
    }
}

/// What the event handler decides about a completion event, before any
/// further attribute of the event is read.
#[derive(Debug, Clone, Copy, PartialEq, Eq, Structural)]
pub enum EventTriage {
    /// The job was cancelled: the event is claimed and ignored.
    Cancelled,
    /// The status code is not one this handler knows: the event is dropped
    /// and left to other handlers.
    Unrecognized,
    /// The transfer failed with this error.
    Failed(Error),
    /// The transfer succeeded: its byte count has to be read from the event.
    NeedsCount,
}

impl EventTriage {
    pub open spec fn spec_needs_count(self) -> bool {
        self is NeedsCount
    }

    /// Whether the transferred-byte count has to be read from the event.
    pub fn needs_count(self) -> (r: bool)
        ensures
            r == self.spec_needs_count(),
    {
        match self {
            EventTriage::NeedsCount => true,
            _ => false,
        }
    }
}

/// Outcome of handling one completion event.
pub struct HandledEvent<S, W> {
    /// Status the native handler returns.
    pub handler_status: i32,
    /// Result to hand over, if the event completed a registered job.
    pub delivery: Option<Delivery<S, W>>,
}

impl<S, W> RegistryState<S, W> {
    /// Live and pending entries never coexist for one id, and a live id is
    /// never marked cancelled.
    pub open spec fn wf(self) -> bool {
        &&& self.cancelled.no_duplicates()
        &&& self.cancelled.len() <= self.capacity
        &&& forall|k: u32| #[trigger]
            self.live.contains_key(k) ==> !self.pending.contains_key(k)
        &&& forall|k: u32| #[trigger]
            self.live.contains_key(k) ==> !self.cancelled.contains(JobID(k))
    }

    pub open spec fn pending_of(self, j: JobID) -> Option<Result<usize>> {
        if self.pending.contains_key(j.0) {
            Some(self.pending[j.0])
        } else {
            None
        }
    }

    /// Registering `j`: a stored early completion is delivered at once and
    /// dropped; otherwise the registration becomes live.
    pub open spec fn add_job(self, j: JobID, s: S, w: W) -> (RegistryState<S, W>, Option<
        Delivery<S, W>,
    >) {
        let cancelled = spec_without(self.cancelled, j);
        if self.pending.contains_key(j.0) {
            (
                RegistryState {
                    live: self.live,
                    pending: self.pending.remove(j.0),
                    cancelled,
                    capacity: self.capacity,
                },
                Some(Delivery { sender: s, waker: w, result: self.pending[j.0] }),
            )
        } else {
            (
                RegistryState {
                    live: self.live.insert(j.0, (s, w)),
                    pending: self.pending,
                    cancelled,
                    capacity: self.capacity,
                },
                None,
            )
        }
    }

    /// Dropping `j`: its live and pending entries go, and it becomes the
    /// newest member of the cancelled set.
    pub open spec fn remove_job(self, j: JobID) -> RegistryState<S, W> {
        RegistryState {
            live: self.live.remove(j.0),
            pending: self.pending.remove(j.0),
            cancelled: spec_insert(self.cancelled, j, self.capacity),
            capacity: self.capacity,
        }
    }

    /// Recording an early completion of `j`, then merging it at once with a
    /// live registration if there is one.
    pub open spec fn add_pending(self, j: JobID, r: Result<usize>) -> (RegistryState<S, W>, Option<
        Delivery<S, W>,
    >) {
        let merged = spec_merge(self.pending_of(j), r);
        if self.live.contains_key(j.0) {
            (
                RegistryState {
                    live: self.live.remove(j.0),
                    pending: self.pending.remove(j.0),
                    cancelled: self.cancelled,
                    capacity: self.capacity,
                },
                Some(Delivery { sender: self.live[j.0].0, waker: self.live[j.0].1, result: merged }),
            )
        } else {
            (
                RegistryState {
                    live: self.live,
                    pending: self.pending.insert(j.0, merged),
                    cancelled: self.cancelled,
                    capacity: self.capacity,
                },
                None,
            )
        }
    }

    /// Completing the live registration of `j` with `r`.
    pub open spec fn dispatch(self, j: JobID, r: Result<usize>) -> (RegistryState<S, W>, Option<
        Delivery<S, W>,
    >) {
        (
            RegistryState {
                live: self.live.remove(j.0),
                pending: self.pending,
                cancelled: self.cancelled,
                capacity: self.capacity,
            },
            Some(Delivery { sender: self.live[j.0].0, waker: self.live[j.0].1, result: r }),
        )
    }

    /// Routing a completion of `j`: ignored when `j` was cancelled, dispatched
    /// when it is live, recorded as pending otherwise.
    pub open spec fn complete(self, j: JobID, r: Result<usize>) -> (RegistryState<S, W>, Option<
        Delivery<S, W>,
    >) {
        if self.cancelled.contains(j) {
            (self, None)
        } else if self.live.contains_key(j.0) {
            self.dispatch(j, r)
        } else {
            self.add_pending(j, r)
        }
    }

    /// How the event handler classifies a completion of `j` with native status `status`.
    pub open spec fn triage(self, j: JobID, status: i32) -> EventTriage {
        if self.cancelled.contains(j) {
            EventTriage::Cancelled
        } else if spec_is_transfer_status(status) {
            EventTriage::NeedsCount
        } else {
            match ErrorCode::spec_from_status(status) {
                Some(e) => EventTriage::Failed(Error(e)),
                None => EventTriage::Unrecognized,
            }
        }
    }

    /// The whole event handler: `count` is the outcome of reading the
    /// transferred-byte count, which is consulted for a successful transfer only.
    pub open spec fn handle_event(self, j: JobID, status: i32, count: Option<Result<usize>>) -> (
        RegistryState<S, W>,
        HandledEvent<S, W>,
    ) {
        match self.triage(j, status) {
            EventTriage::Cancelled => (
                self,
                HandledEvent { handler_status: HANDLER_SUCCESS_NCHAIN, delivery: None },
            ),
            EventTriage::Unrecognized => (
                self,
                HandledEvent { handler_status: HANDLER_SUCCESS, delivery: None },
            ),
            EventTriage::Failed(e) => {
                let (next, d) = self.complete(j, Err(e));
                (next, HandledEvent { handler_status: HANDLER_SUCCESS_NCHAIN, delivery: d })
            },
            EventTriage::NeedsCount => {
                let (next, d) = self.complete(j, count.unwrap());
                (next, HandledEvent { handler_status: HANDLER_SUCCESS_NCHAIN, delivery: d })
            },
        }
    }
}

/// Bookkeeping that bridges completion callbacks of the native layer to the
/// tasks waiting for them. `S` is the producer side of a one-shot channel and
/// `W` a handle that wakes the waiting task.
pub struct CompletionRegistry<S, W> {
    live: HashMap<u32, (S, W)>,
    pending: HashMap<u32, Result<usize>>,
    cancelled: RecentlyCancelled,
}

impl<S, W> View for CompletionRegistry<S, W> {
    type V = RegistryState<S, W>;

    closed spec fn view(&self) -> RegistryState<S, W> {
        RegistryState {
            live: self.live@,
            pending: self.pending@,
            cancelled: self.cancelled@,
            capacity: self.cancelled.spec_capacity(),
        }
    }
}

fn merge(prev: Option<Result<usize>>, r: Result<usize>) -> (m: Result<usize>)
    ensures
        m == spec_merge(prev, r),
{
    match prev {
        None => r,
        Some(Err(e)) => Err(e),
        Some(Ok(a)) => match r {
            Ok(b) => Ok(a.saturating_add(b)),
            Err(e) => Err(e),
        },
    }
}

impl<S, W> CompletionRegistry<S, W> {
    pub open spec fn wf(&self) -> bool {
        self@.wf()
    }

    /// An empty registry whose cancelled set holds up to
    /// [`CANCELLED_CAPACITY`] ids.
    pub fn new() -> (r: CompletionRegistry<S, W>)
        ensures
            r.wf(),
            r@.live == Map::<u32, (S, W)>::empty(),
            r@.pending == Map::<u32, Result<usize>>::empty(),
            r@.cancelled == Seq::<JobID>::empty(),
            r@.capacity == CANCELLED_CAPACITY,
    {
        CompletionRegistry {
            live: HashMap::new(),
            pending: HashMap::new(),
            cancelled: RecentlyCancelled::new(CANCELLED_CAPACITY),
        }
    }

    /// Whether `j` has a live registration.
    pub fn is_live(&self, j: JobID) -> (r: bool)
        ensures
            r == self@.live.contains_key(j.0),
    {
        self.live.contains_key(&j.0)
    }

    /// Whether a completion of `j` is stored, waiting for its registration.
    pub fn has_pending(&self, j: JobID) -> (r: bool)
        ensures
            r == self@.pending.contains_key(j.0),
    {
        self.pending.contains_key(&j.0)
    }

    /// Whether `j` is in the recently cancelled set.
    pub fn is_cancelled(&self, j: JobID) -> (r: bool)
        requires
            self.wf(),
        ensures
            r == self@.cancelled.contains(j),
    {
        self.cancelled.contains(j)
    }

    /// Registers the job `j` with the producer side of its channel and its waker.
    ///
    /// A completion that arrived before this call is merged at once: it is
    /// returned for delivery and nothing stays registered.
    pub fn add_job(&mut self, j: JobID, sender: S, waker: W) -> (d: Option<Delivery<S, W>>)
        requires
            old(self).wf(),
            !old(self)@.live.contains_key(j.0),
        ensures
            final(self).wf(),
            (final(self)@, d) == old(self)@.add_job(j, sender, waker),
    {
        proof {
            lemma_without_sub(self@.cancelled, j);
        }
        self.cancelled.remove(j);
        match self.pending.remove(&j.0) {
            Some(r) => Some(Delivery { sender, waker, result: r }),
            None => {
                assert(self.pending@ =~= old(self)@.pending);
                self.live.insert(j.0, (sender, waker));
                None
            },
        }
    }

    /// Drops the job `j`, live or not: its registration and any stray early
    /// completion go, and `j` is marked recently cancelled.
    pub fn remove_job(&mut self, j: JobID)
        requires
            old(self).wf(),
        ensures
            final(self).wf(),
            final(self)@ == old(self)@.remove_job(j),
    {
        proof {
            crate::cancelled::lemma_insert_within_capacity(
                self@.cancelled,
                j,
                self@.capacity,
            );
            lemma_insert_sub(self@.cancelled, j, self@.capacity);
        }
        self.live.remove(&j.0);
        self.pending.remove(&j.0);
        self.cancelled.insert(j);
        assert forall|k: u32| #[trigger] self@.live.contains_key(k) implies !self@.cancelled.contains(
            JobID(k),
        ) by {
            assert(old(self)@.live.contains_key(k));
            assert(k != j.0);
            if self@.cancelled.contains(JobID(k)) {
                assert(spec_insert(old(self)@.cancelled, j, old(self)@.capacity).contains(JobID(k)));
                assert(old(self)@.cancelled.contains(JobID(k)) || JobID(k) == j);
                assert(!old(self)@.cancelled.contains(JobID(k)));
            }
        }
        assert forall|k: u32| #[trigger] self@.live.contains_key(k) implies !self@.pending.contains_key(
            k,
        ) by {
            assert(old(self)@.live.contains_key(k));
        }
    }

    /// Records a completion of `j` that found no live registration, then
    /// merges it at once with a registration that raced in meanwhile.
    pub fn add_pending(&mut self, j: JobID, r: Result<usize>) -> (d: Option<Delivery<S, W>>)
        requires
            old(self).wf(),
        ensures
            final(self).wf(),
            (final(self)@, d) == old(self)@.add_pending(j, r),
    {
        let prev = self.pending.remove(&j.0);
        let merged = merge(prev, r);
        match self.live.remove(&j.0) {
            Some(entry) => {
                let (sender, waker) = entry;
                Some(Delivery { sender, waker, result: merged })
            },
            None => {
                assert(self.live@ =~= old(self)@.live);
                self.pending.insert(j.0, merged);
                assert(self.pending@ =~= old(self)@.pending.insert(j.0, merged));
                None
            },
        }
    }

    /// Completes the live registration of `j` with `r`.
    pub fn dispatch(&mut self, j: JobID, r: Result<usize>) -> (d: Option<Delivery<S, W>>)
        requires
            old(self).wf(),
            old(self)@.live.contains_key(j.0),
        ensures
            final(self).wf(),
            (final(self)@, d) == old(self)@.dispatch(j, r),
    {
        match self.live.remove(&j.0) {
            Some(entry) => {
                let (sender, waker) = entry;
                Some(Delivery { sender, waker, result: r })
            },
            None => None,
        }
    }

    /// Routes a completion of `j`: ignored when `j` was recently cancelled,
    /// dispatched when it is live, recorded as pending otherwise.
    pub fn complete(&mut self, j: JobID, r: Result<usize>) -> (d: Option<Delivery<S, W>>)
        requires
            old(self).wf(),
        ensures
            final(self).wf(),
            (final(self)@, d) == old(self)@.complete(j, r),
    {
        if self.cancelled.contains(j) {
            None
        } else if self.live.contains_key(&j.0) {
            self.dispatch(j, r)
        } else {
            self.add_pending(j, r)
        }
    }

    /// Classifies a completion event of `j` with native status `status`.
    pub fn triage(&self, j: JobID, status: i32) -> (t: EventTriage)
        requires
            self.wf(),
        ensures
            t == self@.triage(j, status),
    {
        if self.cancelled.contains(j) {
            EventTriage::Cancelled
        } else if is_transfer_status(status) {
            EventTriage::NeedsCount
        } else {
            match ErrorCode::from_status(status) {
                Some(e) => EventTriage::Failed(Error(e)),
                None => EventTriage::Unrecognized,
            }
        }
    }

    /// Handles a completion event of `j` with native status `status`.
    ///
    /// `count` is the outcome of reading the event's transferred-byte count;
    /// it has to be there when [`Self::triage`] asks for it and is ignored
    /// otherwise.
    pub fn handle_event(&mut self, j: JobID, status: i32, count: Option<Result<usize>>) -> (h:
        HandledEvent<S, W>)
        requires
            old(self).wf(),
            old(self)@.triage(j, status) is NeedsCount ==> count is Some,
        ensures
            final(self).wf(),
            (final(self)@, h) == old(self)@.handle_event(j, status, count),
    {
        match self.triage(j, status) {
            EventTriage::Cancelled => HandledEvent {
                handler_status: HANDLER_SUCCESS_NCHAIN,
                delivery: None,
            },
            EventTriage::Unrecognized => HandledEvent {
                handler_status: HANDLER_SUCCESS,
                delivery: None,
            },
            EventTriage::Failed(e) => {
                let d = self.complete(j, Err(e));
                HandledEvent { handler_status: HANDLER_SUCCESS_NCHAIN, delivery: d }
            },
            EventTriage::NeedsCount => {
                let r = match count {
                    Some(c) => c,
                    None => vstd::pervasive::unreached(),
                };
                let d = self.complete(j, r);
                HandledEvent { handler_status: HANDLER_SUCCESS_NCHAIN, delivery: d }
            },
        }
    }
}

proof fn lemma_without_sub(s: Seq<JobID>, j: JobID)
    requires
        s.no_duplicates(),
    ensures
        forall|x: JobID| #[trigger] spec_without(s, j).contains(x) ==> s.contains(x),
{
    if s.contains(j) {
        let i = s.index_of(j);
        assert forall|x: JobID| #[trigger] spec_without(s, j).contains(x) implies s.contains(x) by {
            let r = s.remove(i);
            let k = choose|k: int| 0 <= k < r.len() && r[k] == x;
            let sk = if k < i { k } else { k + 1 };
            assert(s[sk] == x);
        }
    }
}

proof fn lemma_insert_sub(s: Seq<JobID>, j: JobID, cap: nat)
    requires
        s.no_duplicates(),
    ensures
        forall|x: JobID| #[trigger] spec_insert(s, j, cap).contains(x) ==> s.contains(x) || x == j,
{
    lemma_without_sub(s, j);
    let t = spec_without(s, j).push(j);
    assert forall|x: JobID| #[trigger] spec_insert(s, j, cap).contains(x) implies s.contains(x)
        || x == j by {
        let r = spec_insert(s, j, cap);
        let k = choose|k: int| 0 <= k < r.len() && r[k] == x;
        if t.len() > cap {
            assert(t[k + 1] == x);
            if k + 1 < t.len() - 1 {
                assert(spec_without(s, j).contains(x));
            }
        } else {
            if k < t.len() - 1 {
                assert(spec_without(s, j).contains(x));
            }
        }
    }
}

/// One step on a single job identifier: its registration, or a completion
/// event routed by the event handler.
pub enum RegistryOp<S, W> {
    AddJob(S, W),
    Complete(Result<usize>),
}

pub open spec fn count_adds<S, W>(ops: Seq<RegistryOp<S, W>>) -> nat
    decreases ops.len(),
{
    if ops.len() == 0 {
        0
    } else {
        count_adds(ops.drop_last()) + if ops.last() is AddJob {
            1nat
        } else {
            0nat
        }
    }
}

pub open spec fn count_completes<S, W>(ops: Seq<RegistryOp<S, W>>) -> nat
    decreases ops.len(),
{
    if ops.len() == 0 {
        0
    } else {
        count_completes(ops.drop_last()) + if ops.last() is Complete {
            1nat
        } else {
            0nat
        }
    }
}

/// The sender and waker of the registration among `ops`, the latest if
/// there are several.
pub open spec fn registration<S, W>(ops: Seq<RegistryOp<S, W>>) -> Option<(S, W)>
    decreases ops.len(),
{
    if ops.len() == 0 {
        None
    } else {
        match ops.last() {
            RegistryOp::AddJob(s, w) => Some((s, w)),
            RegistryOp::Complete(_) => registration(ops.drop_last()),
        }
    }
}

/// Runs `ops` on job `j` from state `v`: the state reached, the number of
/// deliveries made on the way, and the latest delivery.
pub open spec fn run_ops<S, W>(v: RegistryState<S, W>, j: JobID, ops: Seq<RegistryOp<S, W>>) -> (
    RegistryState<S, W>,
    nat,
    Option<Delivery<S, W>>,
)
    decreases ops.len(),
{
    if ops.len() == 0 {
        (v, 0, None)
    } else {
        let (p, n, last) = run_ops(v, j, ops.drop_last());
        let (q, d) = match ops.last() {
            RegistryOp::AddJob(s, w) => p.add_job(j, s, w),
            RegistryOp::Complete(r) => p.complete(j, r),
        };
        (q, n + if d is Some {
            1nat
        } else {
            0nat
        }, if d is Some {
            d
        } else {
            last
        })
    }
}

/// Exactly-once delivery: however the registration of a job and its
/// completion events interleave, the job's result is delivered once, through
/// the registered sender and waker, as soon as the job has been registered
/// and has completed at least once; and never more than once.
pub proof fn lemma_delivered_exactly_once<S, W>(
    v: RegistryState<S, W>,
    j: JobID,
    ops: Seq<RegistryOp<S, W>>,
)
    requires
        !v.live.contains_key(j.0),
        !v.pending.contains_key(j.0),
        !v.cancelled.contains(j),
        count_adds(ops) <= 1,
    ensures
        run_ops(v, j, ops).1 == if count_adds(ops) == 1 && count_completes(ops) > 0 {
            1nat
        } else {
            0nat
        },
        run_ops(v, j, ops).1 == 1 ==> (run_ops(v, j, ops).2 matches Some(d) && registration(ops)
            == Some((d.sender, d.waker))),
        run_ops(v, j, ops).0.cancelled == v.cancelled,
        count_adds(ops) == 0 ==> !run_ops(v, j, ops).0.live.contains_key(j.0) && (run_ops(
            v,
            j,
            ops,
        ).0.pending.contains_key(j.0) <==> count_completes(ops) > 0) && registration(ops) is None,
        count_adds(ops) == 1 ==> (run_ops(v, j, ops).0.live.contains_key(j.0) <==> count_completes(
            ops,
        ) == 0) && registration(ops) is Some,
        run_ops(v, j, ops).0.live.contains_key(j.0) ==> registration(ops) == Some(
            run_ops(v, j, ops).0.live[j.0],
        ),
    decreases ops.len(),
{
    if ops.len() > 0 {
        let init = ops.drop_last();
        lemma_delivered_exactly_once(v, j, init);
        let p = run_ops(v, j, init).0;
        assert(spec_without(p.cancelled, j) == p.cancelled);
    }
}

/// An event for a recently cancelled job changes nothing and delivers
/// nothing: no dispatch and no pending entry.
pub proof fn lemma_cancelled_event_ignored<S, W>(
    v: RegistryState<S, W>,
    j: JobID,
    status: i32,
    count: Option<Result<usize>>,
)
    requires
        v.cancelled.contains(j),
    ensures
        v.handle_event(j, status, count).0 == v,
        v.handle_event(j, status, count).1.delivery is None,
        v.handle_event(j, status, count).1.handler_status == HANDLER_SUCCESS_NCHAIN,
{
}

/// Once a job has been dropped, a late completion event for it is ignored.
pub proof fn lemma_dropped_job_ignored<S, W>(
    v: RegistryState<S, W>,
    j: JobID,
    status: i32,
    count: Option<Result<usize>>,
)
    requires
        v.wf(),
        v.capacity > 0,
    ensures
        v.remove_job(j).cancelled.contains(j),
        !v.remove_job(j).live.contains_key(j.0),
        v.remove_job(j).handle_event(j, status, count).0 == v.remove_job(j),
        v.remove_job(j).handle_event(j, status, count).1.delivery is None,
{
    crate::cancelled::lemma_insert_within_capacity(v.cancelled, j, v.capacity);
    let c = v.remove_job(j).cancelled;
    assert(c[c.len() - 1] == j);
}

/// The result delivered for a live job: the byte count for a successful
/// transfer status, the wrapped error for an error status.
pub proof fn lemma_event_result<S, W>(
    v: RegistryState<S, W>,
    j: JobID,
    status: i32,
    count: Result<usize>,
)
    requires
        v.live.contains_key(j.0),
        !v.cancelled.contains(j),
    ensures
        spec_is_transfer_status(status) ==> v.handle_event(j, status, Some(count)).1.delivery
            == Some(Delivery { sender: v.live[j.0].0, waker: v.live[j.0].1, result: count }),
        ErrorCode::spec_from_status(status) matches Some(e) ==> v.handle_event(
            j,
            status,
            Some(count),
        ).1.delivery == Some(
            Delivery { sender: v.live[j.0].0, waker: v.live[j.0].1, result: Err(Error(e)) },
        ),
        !v.handle_event(j, status, Some(count)).0.live.contains_key(j.0) || v.triage(
            j,
            status,
        ) is Unrecognized,
{
    crate::status::lemma_error_and_completion_disjoint(status);
}

} // verus!
