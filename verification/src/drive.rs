//! The shard run task's race between natural completion and cancellation.
//!
//! Once started, the background task drives all shards and simultaneously
//! waits on the cancellation signal; whichever resolves first decides the
//! exit reason, and the loser is abandoned.  Both outcomes are normal
//! terminal states, not errors.  The process runs the actual race and feeds
//! the first event it observes into `drive_step`.

use crate::lock::AcquireOutcome;
use crate::lock::ClientLock;
use vstd::prelude::*;

verus! {

/// Why the shard run task ended.
#[derive(Clone, Copy, Debug, PartialEq, Eq, Structural)]
pub enum ExitReason {
    /// The drive loop returned on its own (for example, all shards
    /// disconnected).
    NaturalStop,
    /// The cancellation signal fired first.
    Cancelled,
}

/// State of the background shard run task.
#[derive(Clone, Copy, Debug, PartialEq, Eq, Structural)]
pub enum DriveState {
    /// The task holds the exclusive client handle and is driving shards.
    Running,
    /// The task has ended, releasing the handle, for the recorded reason.
    Finished(ExitReason),
}

/// The two raced futures, as events: whichever is observed first wins.
#[derive(Clone, Copy, Debug, PartialEq, Eq, Structural)]
pub enum DriveEvent {
    /// The drive loop completed naturally.
    DriveReturned,
    /// The cancellation signal was observed.
    CancelFired,
}

/// One step of the task: a running task finishes for the reason matching
/// the first observed event; a finished task ignores later events.
pub open spec fn spec_drive_step(s: DriveState, e: DriveEvent) -> DriveState {
    match s {
        DriveState::Running => match e {
            DriveEvent::DriveReturned => DriveState::Finished(ExitReason::NaturalStop),
            DriveEvent::CancelFired => DriveState::Finished(ExitReason::Cancelled),
        },
        DriveState::Finished(_) => s,
    }
}

/// Advance the shard run task by one observed event.
pub fn drive_step(s: DriveState, e: DriveEvent) -> (t: DriveState)
    ensures
        t == spec_drive_step(s, e),
{
    match s {
        DriveState::Running => match e {
            DriveEvent::DriveReturned => DriveState::Finished(ExitReason::NaturalStop),
            DriveEvent::CancelFired => DriveState::Finished(ExitReason::Cancelled),
        },
        DriveState::Finished(_) => s,
    }
}

/// Begin a drive session: the background unit takes the exclusive client
/// lock and holds it for its entire duration, so only one drive can be
/// running at a time.  If the lock is already held — another drive is
/// running — nothing starts and the caller must wait for it to finish.
pub fn try_start_drive(lock: &mut ClientLock) -> (r: Option<DriveState>)
    ensures
        old(lock).held ==> r is None && *final(lock) == *old(lock),
        !old(lock).held ==> r == Some(DriveState::Running) && final(lock).held,
{
    match lock.acquire() {
        AcquireOutcome::Acquired => Some(DriveState::Running),
        AcquireOutcome::MustWait => None,
    }
}

/// End a drive session on its first observed event: the task finishes for
/// the matching reason and — only then — releases the exclusive client
/// lock, making the next drive possible.
pub fn finish_drive(lock: &mut ClientLock, task: DriveState, e: DriveEvent) -> (t: DriveState)
    requires
        task is Running,
        old(lock).held,
    ensures
        t == spec_drive_step(task, e),
        t is Finished,
        !final(lock).held,
{
    lock.release();
    drive_step(task, e)
}

/// Race resolution: from a running task, either event — natural completion
/// or cancellation — terminates the task in one step, with the reason of
/// whichever came first; once finished, the task stays finished and the
/// late event changes nothing, so a subsequent await cannot hang on a task
/// that already observed an event.
pub proof fn lemma_race_resolution(first: DriveEvent, late: DriveEvent)
    ensures
        spec_drive_step(DriveState::Running, first) is Finished,
        first == DriveEvent::DriveReturned ==> spec_drive_step(DriveState::Running, first)
            == DriveState::Finished(ExitReason::NaturalStop),
        first == DriveEvent::CancelFired ==> spec_drive_step(DriveState::Running, first)
            == DriveState::Finished(ExitReason::Cancelled),
        spec_drive_step(spec_drive_step(DriveState::Running, first), late)
            == spec_drive_step(DriveState::Running, first),
{
}

} // verus!
