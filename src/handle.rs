use vstd::prelude::*;

verus! {

/// Record of the completion handler an asynchronous instrument handle has
/// installed: the opaque user data (the address of its heap-allocated
/// completion registry) that was passed to the native install call.
///
/// Uninstalling must pass the very same user data, and the registry it points
/// to is released exactly once, on the first teardown.
pub struct HandlerInstall {
    user_data: Option<usize>,
}

impl View for HandlerInstall {
    type V = Option<usize>;

    closed spec fn view(&self) -> Option<usize> {
        self.user_data
    }
}

/// Teardown on an install record `s`: the user data to uninstall with and to
/// release, if still installed, and the record afterwards.
pub open spec fn spec_teardown(s: Option<usize>) -> (Option<usize>, Option<usize>) {
    (None, s)
}

impl HandlerInstall {
    /// Records a successful install with `user_data`.
    pub fn installed(user_data: usize) -> (r: HandlerInstall)
        ensures
            r@ == Some(user_data),
    {
        HandlerInstall { user_data: Some(user_data) }
    }

    pub fn is_installed(&self) -> (r: bool)
        ensures
            r == self@ is Some,
    {
        self.user_data.is_some()
    }

    /// Tears the install down: hands back the user data the handler was
    /// installed with, the first time only.
    pub fn teardown(&mut self) -> (r: Option<usize>)
        ensures
            (final(self)@, r) == spec_teardown(old(self)@),
    {
        self.user_data.take()
    }
}

/// Teardown is idempotent: tearing down twice uninstalls and releases with
/// the installed user data once, and the second teardown does nothing.
pub proof fn lemma_teardown_idempotent(s: Option<usize>)
    ensures
        ({
            let (s1, r1) = spec_teardown(s);
            let (s2, r2) = spec_teardown(s1);
            &&& r1 == s
            &&& r2 is None
            &&& s2 is None
        }),
{
}

} // verus!
