use std::sync::atomic::{AtomicUsize, Ordering};
use std::sync::Arc;
use vstd::prelude::*;

use crate::outcome::share;

verus! {

/// A completion barrier for one phase: every live [`WaitToken`] that it issued
/// keeps it from being released.
pub struct WaitGroup {
    pending: Arc<AtomicUsize>,
}

/// A handle whose only behaviour is that dropping it releases its share of
/// the [`WaitGroup`] that issued it.
pub struct WaitToken {
    pending: Arc<AtomicUsize>,
}

impl WaitGroup {
    /// The token was issued by this group: it holds a handle to the group's
    /// counter. Verus models an `Arc` by its contents, so this states equal
    /// contents; that dropping the token changes this group's count is not
    /// proved here.
    pub closed spec fn issued(&self, token: &WaitToken) -> bool {
        self.pending == token.pending
    }

    /// A group with no outstanding token.
    pub fn new() -> Self {
        WaitGroup { pending: Arc::new(AtomicUsize::new(0)) }
    }

    /// Issue one more token; the group stays unreleased until it is dropped.
    pub fn token(&self) -> (r: WaitToken)
        ensures
            self.issued(&r),
    {
        self.pending.fetch_add(1, Ordering::Relaxed);
        WaitToken { pending: share(&self.pending) }
    }

    /// Whether every token issued by this group has been dropped.
    pub fn is_released(&self) -> bool {
        self.pending.load(Ordering::Acquire) == 0
    }
}

impl Drop for WaitToken {
    /// Relies on `AtomicUsize::fetch_sub`, which neither unwinds nor opens an
    /// invariant: gives back this token's share of the group's outstanding
    /// count.
    #[verifier::external_body]
    fn drop(&mut self)
        opens_invariants none
        no_unwind
    {
        self.pending.fetch_sub(1, Ordering::Release);
    }
}

} // verus!
