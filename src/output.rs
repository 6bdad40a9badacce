use vstd::prelude::*;

use crate::outcome::PhaseOutcomeToken;
use crate::port::SourceOutputPort;
use crate::wait_group::{WaitGroup, WaitToken};

verus! {

/// What a source receives for one phase: where to send its data, and how to
/// learn whether the phase is being stopped.
///
/// Dropping it tells the driver that the source is done with the phase.
pub struct SourceOutput<S> {
    pub outcome: PhaseOutcomeToken,
    pub port: SourceOutputPort<S>,
    /// Dropping this tells the driver that the phase is done.
    pub wait_token: WaitToken,
}

/// What one lane of a parallel source receives for one phase.
///
/// Dropping it tells the issuer that this lane is done with the phase.
pub struct MorselOutput<S, K> {
    pub outcome: PhaseOutcomeToken,
    pub port: S,
    pub source_token: K,
    /// Dropping this tells the driver that the phase is done.
    pub wait_token: WaitToken,
}

impl<S> SourceOutput<S> {
    /// The output holds a token issued by this wait group.
    pub closed spec fn issued_by(&self, group: &WaitGroup) -> bool {
        group.issued(&self.wait_token)
    }

    /// A phase output over `port`, together with the outcome token that it
    /// shares and the wait group that is released once the output is dropped.
    pub fn from_port(port: SourceOutputPort<S>) -> (r: (PhaseOutcomeToken, WaitGroup, Self))
        ensures
            r.2.port == port,
            r.2.outcome.shares_flag_with(&r.0),
            r.2.issued_by(&r.1),
    {
        let outcome = PhaseOutcomeToken::new();
        let wait_group = WaitGroup::new();
        let output = SourceOutput {
            outcome: outcome.clone(),
            wait_token: wait_group.token(),
            port,
        };
        (outcome, wait_group, output)
    }
}

impl<S, K> MorselOutput<S, K> {
    /// The output holds a token issued by this wait group.
    pub closed spec fn issued_by(&self, group: &WaitGroup) -> bool {
        group.issued(&self.wait_token)
    }

    /// A lane output over `port` carrying `source_token`, together with the
    /// outcome token that it shares and the wait group that is released once
    /// the output is dropped.
    pub fn from_port(port: S, source_token: K) -> (r: (PhaseOutcomeToken, WaitGroup, Self))
        ensures
            r.2.port == port,
            r.2.source_token == source_token,
            r.2.outcome.shares_flag_with(&r.0),
            r.2.issued_by(&r.1),
    {
        let outcome = PhaseOutcomeToken::new();
        let wait_group = WaitGroup::new();
        let output = MorselOutput {
            outcome: outcome.clone(),
            wait_token: wait_group.token(),
            port,
            source_token,
        };
        (outcome, wait_group, output)
    }
}

} // verus!
