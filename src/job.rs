use vstd::prelude::*;

verus! {

/// Job identifier of an asynchronous operation, as issued by the native layer.
///
/// It is unique only while the job is outstanding: the native layer may hand
/// the same value out again once the job has completed or been terminated.
#[derive(Debug, Clone, Copy, PartialEq, Eq, Structural, Hash)]
pub struct JobID(pub u32);

impl JobID {
    /// The null job identifier, which asks a terminate call to abort every
    /// outstanding asynchronous call of the session.
    pub fn null() -> (r: JobID)
        ensures
            r.0 == 0,
    {
        JobID(0)
    }
}

} // verus!
