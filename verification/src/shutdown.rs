//! The single-producer, single-consumer, single-fire shutdown signal.
//!
//! The producer is whoever decides that no more new work should start; the
//! consumer is the responder's accept loop, which checks the signal before
//! each new accept and never mid-request.

use vstd::prelude::*;

verus! {

/// A single-use, single-value signal: delivered at most once, and a second
/// delivery is a no-op rather than an error.
#[derive(Clone, Copy, Debug, PartialEq, Eq, Structural)]
pub struct ShutdownSignal {
    /// Whether the signal has been delivered.
    pub fired: bool,
}

/// The state a signal holds after one delivery, whatever it held before.
pub open spec fn spec_after_fire(s: ShutdownSignal) -> ShutdownSignal {
    ShutdownSignal { fired: true }
}

/// Whether a signal in state `s` still admits new work.
pub open spec fn spec_admits_new_work(s: ShutdownSignal) -> bool {
    !s.fired
}

impl ShutdownSignal {
    /// A fresh signal: not yet delivered, still admitting new work.
    pub fn new() -> (s: Self)
        ensures
            !s.fired,
            spec_admits_new_work(s),
    {
        ShutdownSignal { fired: false }
    }

    /// Deliver the signal. Delivering it again later changes nothing.
    pub fn fire(&mut self)
        ensures
            *final(self) == spec_after_fire(*old(self)),
            final(self).fired,
    {
        self.fired = true;
    }

    /// Whether the accept loop may admit one more connection. The loop asks
    /// this before each accept; once the signal has fired the answer stays
    /// `false`, while work already admitted is unaffected.
    pub fn admits_new_work(&self) -> (r: bool)
        ensures
            r == spec_admits_new_work(*self),
    {
        !self.fired
    }
}

/// Law: delivering the signal a second time is a no-op — the state after two
/// deliveries is exactly the state after one (idempotent shutdown).
pub proof fn lemma_fire_idempotent(s: ShutdownSignal)
    ensures
        spec_after_fire(spec_after_fire(s)) == spec_after_fire(s),
{
}

/// Law: after the signal has fired, the accept loop admits no new connection.
/// A connection that was already accepted is untouched by this: its handling
/// (`crate::responder::response_for`) takes no signal at all.
pub proof fn lemma_fired_denies_admission(s: ShutdownSignal)
    ensures
        !spec_admits_new_work(spec_after_fire(s)),
{
}

} // verus!
