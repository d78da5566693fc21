//! One-shot cancellation signal.
//!
//! The signal is shared between the supervisor and the background shard run
//! task: the supervisor triggers it, the task waits on it.  Triggering is
//! idempotent and irreversible; a waiter is released exactly when the state
//! is triggered.  This module models the signal's state; the process wraps
//! it around a real multi-waiter notification primitive.

use vstd::prelude::*;

verus! {

/// State of a one-shot cancellation signal.
#[derive(Clone, Copy, Debug, PartialEq, Eq, Structural)]
pub struct CancelFlag {
    pub triggered: bool,
}

/// The state after one trigger: triggered, whatever it was before.
pub open spec fn spec_trigger(f: CancelFlag) -> CancelFlag {
    CancelFlag { triggered: true }
}

/// The state after `n` consecutive triggers.
pub open spec fn spec_trigger_n(f: CancelFlag, n: nat) -> CancelFlag
    decreases n,
{
    if n == 0 {
        f
    } else {
        spec_trigger(spec_trigger_n(f, (n - 1) as nat))
    }
}

impl CancelFlag {
    /// A fresh, untriggered signal.
    pub fn new() -> (r: CancelFlag)
        ensures
            !r.triggered,
    {
        CancelFlag { triggered: false }
    }

    /// Request cancellation.  No error conditions; the transition is
    /// one-way and repeating it changes nothing.
    pub fn trigger(&mut self)
        ensures
            *final(self) == spec_trigger(*old(self)),
    {
        self.triggered = true;
    }

    /// Whether cancellation has been requested.  A waiter suspends until
    /// this is true and is released as soon as it is, so checking after a
    /// release always reports a triggered signal.
    pub fn is_triggered(&self) -> (r: bool)
        ensures
            r == self.triggered,
    {
        self.triggered
    }
}

/// Idempotent cancellation: triggering any number of times (at least once)
/// leaves the same state as triggering once, and that state is triggered —
/// exactly one observable transition, however many callers raced to it.
pub proof fn lemma_trigger_idempotent(f: CancelFlag, n: nat)
    requires
        n >= 1,
    ensures
        spec_trigger_n(f, n) == spec_trigger(f),
        spec_trigger_n(f, n).triggered,
    decreases n,
{
    if n > 1 {
        lemma_trigger_idempotent(f, (n - 1) as nat);
    }
}

/// Once triggered, the signal never resets: a trigger preserves
/// `triggered`, so an observer that saw the transition can rely on it.
pub proof fn lemma_trigger_monotone(f: CancelFlag)
    ensures
        f.triggered ==> spec_trigger(f).triggered,
{
}

} // verus!
