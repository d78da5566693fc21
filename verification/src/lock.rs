//! Exclusive lock on the gateway client handle.
//!
//! The shard run task takes the write side of this lock for its entire
//! lifetime, so nothing else can drive the connection concurrently; outbound
//! messaging deliberately goes through a separate lightweight handle and
//! never contends here.  This module models who may proceed: the process
//! maps `MustWait` to an actual suspension on the real lock.

use vstd::prelude::*;

verus! {

/// Outcome of one attempt to take the exclusive client handle.
#[derive(Clone, Copy, Debug, PartialEq, Eq, Structural)]
pub enum AcquireOutcome {
    /// The caller now holds the lock.
    Acquired,
    /// Someone else holds it; the caller must suspend until a release.
    MustWait,
}

/// State of the exclusive (write) lock on the client handle.
#[derive(Clone, Copy, Debug, PartialEq, Eq, Structural)]
pub struct ClientLock {
    pub held: bool,
}

/// One acquisition attempt: a free lock is taken, a held lock turns the
/// caller away unchanged.
pub open spec fn spec_acquire(l: ClientLock) -> (ClientLock, AcquireOutcome) {
    if l.held {
        (l, AcquireOutcome::MustWait)
    } else {
        (ClientLock { held: true }, AcquireOutcome::Acquired)
    }
}

/// A release: the lock is free again.
pub open spec fn spec_release(l: ClientLock) -> ClientLock {
    ClientLock { held: false }
}

impl ClientLock {
    /// A fresh lock, held by nobody.
    pub fn new() -> (r: ClientLock)
        ensures
            !r.held,
    {
        ClientLock { held: false }
    }

    /// Attempt to take the lock for exclusive use.
    pub fn acquire(&mut self) -> (r: AcquireOutcome)
        ensures
            (*final(self), r) == spec_acquire(*old(self)),
    {
        if self.held {
            AcquireOutcome::MustWait
        } else {
            self.held = true;
            AcquireOutcome::Acquired
        }
    }

    /// Give the lock back; only the holder may do so.
    pub fn release(&mut self)
        requires
            old(self).held,
        ensures
            *final(self) == spec_release(*old(self)),
    {
        self.held = false;
    }
}

/// Exclusive drive ownership: while the lock is held, every further
/// acquisition attempt must wait and leaves the lock with its holder, so a
/// second concurrent drive serializes behind the first; only after the
/// holder releases does an attempt succeed.
pub proof fn lemma_exclusive_acquire(l: ClientLock)
    requires
        l.held,
    ensures
        spec_acquire(l).1 == AcquireOutcome::MustWait,
        spec_acquire(l).0 == l,
        spec_acquire(spec_release(l)).1 == AcquireOutcome::Acquired,
        spec_acquire(spec_release(l)).0.held,
{
}

} // verus!
