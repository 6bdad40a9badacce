use std::sync::atomic::{AtomicBool, Ordering};
use std::sync::Arc;
use vstd::prelude::*;

verus! {

/// Relies on `Arc::clone`: the new handle points at the same allocation, so
/// its contents are those of the original handle.
#[verifier::external_body]
pub(crate) fn share<T>(a: &Arc<T>) -> (r: Arc<T>)
    ensures
        r == *a,
{
    Arc::clone(a)
}

/// Token that records the outcome of a phase: whether it ran to completion or
/// was stopped before that.
///
/// Clones share one flag, so every clone observes the same outcome.
pub struct PhaseOutcomeToken {
    /// `false`: finished (or still running); `true`: stopped before finishing.
    stop: Arc<AtomicBool>,
}

impl PhaseOutcomeToken {
    /// The two tokens hold equal flags: one is a clone of the other. Verus
    /// models an `Arc` by its contents, so this states equal contents; that a
    /// `stop` through one is seen through the other is not proved here.
    pub closed spec fn shares_flag_with(&self, other: &PhaseOutcomeToken) -> bool {
        self.stop == other.stop
    }

    /// A fresh token, not stopped.
    pub fn new() -> Self {
        PhaseOutcomeToken { stop: Arc::new(AtomicBool::new(false)) }
    }

    /// Indicate that the phase was stopped before finishing.
    pub fn stop(&self) {
        self.stop.store(true, Ordering::Relaxed);
    }

    /// Whether the phase was stopped before finishing.
    pub fn was_stopped(&self) -> bool {
        self.stop.load(Ordering::Relaxed)
    }

    /// Whether the phase ran to completion.
    pub fn did_finish(&self) -> (r: bool) {
        let stopped = self.was_stopped();
        !stopped
    }
}

impl Clone for PhaseOutcomeToken {
    fn clone(&self) -> (r: Self)
        ensures
            r.shares_flag_with(self),
    {
        PhaseOutcomeToken { stop: share(&self.stop) }
    }
}

} // verus!
