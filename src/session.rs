use vstd::prelude::*;

use core::marker::PhantomData;

verus! {

/// Raw native session (or event context) handle.
pub type RawSs = u32;

/// A borrowed native session: a handle that is valid for `'b` and that this
/// value does not close.
#[derive(Debug, Clone, Copy, PartialEq, Eq, Hash)]
pub struct BorrowedSs<'b> {
    s: RawSs,
    _phantom: PhantomData<&'b RawSs>,
}

impl<'b> BorrowedSs<'b> {
    pub closed spec fn spec_raw(&self) -> RawSs {
        self.s
    }

    /// Borrows the session `ss`, which must stay valid for `'b`.
    pub fn borrow_raw(ss: RawSs) -> (r: BorrowedSs<'b>)
        ensures
            r.spec_raw() == ss,
    {
        BorrowedSs { s: ss, _phantom: PhantomData }
    }
}

/// Extracts the raw native handle from a value.
pub trait AsRawSs {
    fn as_raw_ss(&self) -> RawSs;
}

/// Borrows the native session of a value.
pub trait AsSs {
    fn as_ss(&self) -> BorrowedSs<'_>;
}

impl<'b> AsRawSs for BorrowedSs<'b> {
    fn as_raw_ss(&self) -> RawSs {
        self.s
    }
}

impl<'b> AsSs for BorrowedSs<'b> {
    fn as_ss(&self) -> BorrowedSs<'_> {
        *self
    }
}

} // verus!
