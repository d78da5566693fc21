//! The bot lifecycle supervisor.
//!
//! `DiscordBot` owns the model state of the whole lifecycle: the three
//! destination channels, the one-shot cancellation signal, the handle to
//! the background shard run task (at most one), and whether an audio
//! subsystem is attached.  Its methods decide what the process must do —
//! which sends to perform, which ordered steps bring the system down — and
//! how the state changes; the process executes those steps with the real
//! client, task and locks.

use crate::cancel::CancelFlag;
use crate::cancel::spec_trigger;
use crate::messaging::SendOp;
use crate::messaging::archive_text;
use crate::messaging::spec_archive_text;
use crate::messaging::url_view;
use crate::shards::ShardSnapshot;
use crate::shards::shard_line;
use crate::shards::spec_shard_line;
use vstd::prelude::*;

verus! {

/// Grace delay between the audio quiesce and the shard cancellation, in
/// milliseconds: it gives the audio subsystem's departure messages time to
/// be observed while the shard connection is still alive.
pub const GRACE_DELAY_MS: u64 = 500;

/// The supervisor's record of the spawned shard run task.
#[derive(Clone, Copy, Debug, PartialEq, Eq, Structural)]
pub struct ShardTaskHandle {
    /// How many shards the task was asked to drive.
    pub num_shards: u64,
}

/// One step of an ordered teardown sequence, for the process to perform.
#[derive(Clone, Copy, Debug, PartialEq, Eq, Structural)]
pub enum ShutdownStep {
    /// Ask the audio subsystem, under its own lock, to depart.  If it
    /// reports an error, log it and carry on with the remaining steps:
    /// shard teardown is never blocked by a misbehaving subsystem.
    AudioShutdown,
    /// Sleep for the given number of milliseconds, with the audio lock
    /// released.
    GraceDelay(u64),
    /// Trigger the cancellation signal.
    TriggerCancel,
    /// Await the stored shard run task until it observes the signal (or
    /// finishes on its own) and exits.
    AwaitShardTask,
    /// Nothing was running: log that teardown found no task handle, a
    /// non-fatal condition.
    LogNoShardHandle,
}

/// The shard-stop steps: trigger cancellation, then await the stored task,
/// or note that none was stored.
pub open spec fn spec_stop_steps(handle_present: bool) -> Seq<ShutdownStep> {
    seq![ShutdownStep::TriggerCancel] + if handle_present {
        seq![ShutdownStep::AwaitShardTask]
    } else {
        seq![ShutdownStep::LogNoShardHandle]
    }
}

/// The full ordered shutdown sequence: quiesce the audio subsystem if one
/// is attached, sleep out the grace delay, then stop the shards.
pub open spec fn spec_shutdown_plan(audio_present: bool, handle_present: bool) -> Seq<
    ShutdownStep,
> {
    (if audio_present {
        seq![ShutdownStep::AudioShutdown]
    } else {
        Seq::empty()
    }) + seq![ShutdownStep::GraceDelay(GRACE_DELAY_MS)] + spec_stop_steps(handle_present)
}

/// The bot lifecycle supervisor's state.
#[derive(Clone, Debug)]
pub struct DiscordBot {
    /// Primary chat channel for posts.
    pub chat_channel: u64,
    /// Archive channel; receives each post with its URL attached.
    pub archive_channel: u64,
    /// Debug/test channel; receives only debug posts.
    pub test_channel: u64,
    /// Whether an audio subsystem is attached and must be quiesced first
    /// during shutdown.
    pub audio_present: bool,
    /// The one-shot cancellation signal shared with the shard run task.
    pub cancel: CancelFlag,
    /// The stored shard run task handle, if one was started.
    pub shard_handle: Option<ShardTaskHandle>,
}

impl DiscordBot {
    /// A fresh supervisor: channels as given, signal untriggered, no task
    /// running.  The gateway client itself is built by the process before
    /// this; a failure there aborts startup and no supervisor exists.
    pub fn new(chat_channel: u64, archive_channel: u64, test_channel: u64, audio_present: bool)
        -> (b: DiscordBot)
        ensures
            b.chat_channel == chat_channel,
            b.archive_channel == archive_channel,
            b.test_channel == test_channel,
            b.audio_present == audio_present,
            !b.cancel.triggered,
            b.shard_handle is None,
    {
        DiscordBot {
            chat_channel,
            archive_channel,
            test_channel,
            audio_present,
            cancel: CancelFlag::new(),
            shard_handle: None,
        }
    }

    /// Start the background shard run task for the given number of shards
    /// and store its handle.  At most one task may be active at a time:
    /// starting again while one is stored is unsupported, so this demands
    /// a cleared handle.  The returned handle is what the process spawns:
    /// a task that takes the exclusive client lock for its whole lifetime
    /// and races the drive loop against the cancellation signal.
    pub fn start_shards(&mut self, num_shards: u64) -> (h: ShardTaskHandle)
        requires
            num_shards >= 1,
            old(self).shard_handle is None,
        ensures
            h.num_shards == num_shards,
            final(self).shard_handle == Some(h),
            final(self).chat_channel == old(self).chat_channel,
            final(self).archive_channel == old(self).archive_channel,
            final(self).test_channel == old(self).test_channel,
            final(self).audio_present == old(self).audio_present,
            final(self).cancel == old(self).cancel,
    {
        let h = ShardTaskHandle { num_shards };
        self.shard_handle = Some(h);
        h
    }

    /// Stop the shards: trigger the cancellation signal, then have the
    /// process await the stored task — or note that none was stored.  The
    /// handle is cleared; everything else is untouched.
    pub fn stop_shards(&mut self) -> (steps: Vec<ShutdownStep>)
        ensures
            steps@ == spec_stop_steps(old(self).shard_handle is Some),
            final(self).cancel == spec_trigger(old(self).cancel),
            final(self).shard_handle is None,
            final(self).chat_channel == old(self).chat_channel,
            final(self).archive_channel == old(self).archive_channel,
            final(self).test_channel == old(self).test_channel,
            final(self).audio_present == old(self).audio_present,
    {
        self.cancel.trigger();
        let had_handle = self.shard_handle.is_some();
        self.shard_handle = None;
        let mut steps: Vec<ShutdownStep> = Vec::new();
        steps.push(ShutdownStep::TriggerCancel);
        if had_handle {
            steps.push(ShutdownStep::AwaitShardTask);
        } else {
            steps.push(ShutdownStep::LogNoShardHandle);
        }
        proof {
            assert(steps@ =~= spec_stop_steps(old(self).shard_handle is Some));
        }
        steps
    }

    /// Tear the whole system down, consuming the supervisor: quiesce the
    /// audio subsystem if one is attached, sleep out the grace delay, then
    /// trigger cancellation and await the shard task.  Terminal: the value
    /// is gone afterwards and cancellation cannot be undone, so a later
    /// run needs a new supervisor.
    pub fn shutdown(self) -> (steps: Vec<ShutdownStep>)
        ensures
            steps@ == spec_shutdown_plan(self.audio_present, self.shard_handle is Some),
    {
        let mut steps: Vec<ShutdownStep> = Vec::new();
        if self.audio_present {
            steps.push(ShutdownStep::AudioShutdown);
        }
        steps.push(ShutdownStep::GraceDelay(GRACE_DELAY_MS));
        steps.push(ShutdownStep::TriggerCancel);
        match self.shard_handle {
            Option::Some(_) => {
                steps.push(ShutdownStep::AwaitShardTask);
            },
            Option::None => {
                steps.push(ShutdownStep::LogNoShardHandle);
            },
        }
        proof {
            assert(steps@ =~= spec_shutdown_plan(self.audio_present, self.shard_handle is Some));
        }
        steps
    }

    /// Plan a post: the content goes to the primary channel as is, and to
    /// the archive channel with the URL (if any) appended in delimited
    /// form.  The sends are performed in plan order — primary first — and
    /// are independent: neither's success implies the other's.  No other
    /// channel is touched.
    pub fn post_message(&self, content: String, url: Option<String>) -> (plan: Vec<SendOp>)
        ensures
            plan@.len() == 2,
            plan@[0].channel == self.chat_channel,
            plan@[0].text@ == content@,
            plan@[1].channel == self.archive_channel,
            plan@[1].text@ == spec_archive_text(content@, url_view(&url)),
    {
        let primary_text = content.clone();
        let archive = archive_text(content, &url);
        let mut plan: Vec<SendOp> = Vec::new();
        plan.push(SendOp { channel: self.chat_channel, text: primary_text });
        plan.push(SendOp { channel: self.archive_channel, text: archive });
        plan
    }

    /// Plan a debug post: the text goes to the debug/test channel alone.
    pub fn post_debug_string(&self, message: String) -> (op: SendOp)
        ensures
            op.channel == self.test_channel,
            op.text@ == message@,
    {
        SendOp { channel: self.test_channel, text: message }
    }

    /// Render one report line per shard from a best-effort snapshot taken
    /// under the manager's locks.  Read-only: safe at any time, and the
    /// lines mirror the snapshot entry for entry.
    pub fn print_shard_info(&self, runners: &Vec<ShardSnapshot>) -> (lines: Vec<String>)
        ensures
            lines@.len() == runners@.len(),
            forall|i: int|
                0 <= i < runners@.len() ==> (#[trigger] lines@[i])@ == spec_shard_line(
                    runners@[i],
                ),
    {
        let mut lines: Vec<String> = Vec::new();
        let mut i: usize = 0;
        while i < runners.len()
            invariant
                i <= runners@.len(),
                lines@.len() == i,
                forall|j: int|
                    0 <= j < i ==> (#[trigger] lines@[j])@ == spec_shard_line(runners@[j]),
            decreases runners@.len() - i,
        {
            lines.push(shard_line(&runners[i]));
            i = i + 1;
        }
        lines
    }
}

/// Shutdown ordering: with an audio subsystem present, the plan asks for
/// the audio shutdown strictly before the cancellation trigger, with the
/// grace delay between them — the audio departure rides over the shard
/// connection, which must still be alive — and each of the two steps
/// occurs exactly once.
pub proof fn lemma_shutdown_audio_before_cancel(handle_present: bool)
    ensures
        ({
            let plan = spec_shutdown_plan(true, handle_present);
            &&& plan.len() == 4
            &&& plan[0] == ShutdownStep::AudioShutdown
            &&& plan[1] == ShutdownStep::GraceDelay(GRACE_DELAY_MS)
            &&& plan[2] == ShutdownStep::TriggerCancel
            &&& forall|j: int|
                0 <= j < plan.len() && plan[j] == ShutdownStep::AudioShutdown ==> j == 0
            &&& forall|j: int|
                0 <= j < plan.len() && plan[j] == ShutdownStep::TriggerCancel ==> j == 2
        }),
{
    let plan = spec_shutdown_plan(true, handle_present);
    if handle_present {
        assert(plan =~= seq![
            ShutdownStep::AudioShutdown,
            ShutdownStep::GraceDelay(GRACE_DELAY_MS),
            ShutdownStep::TriggerCancel,
            ShutdownStep::AwaitShardTask,
        ]);
    } else {
        assert(plan =~= seq![
            ShutdownStep::AudioShutdown,
            ShutdownStep::GraceDelay(GRACE_DELAY_MS),
            ShutdownStep::TriggerCancel,
            ShutdownStep::LogNoShardHandle,
        ]);
    }
}

/// The shutdown sequence always ends with the shard-stop steps: whatever
/// the audio configuration, cancellation is triggered before the task is
/// awaited, and the two phases never interleave.
pub proof fn lemma_shutdown_ends_with_stop(audio_present: bool, handle_present: bool)
    ensures
        ({
            let plan = spec_shutdown_plan(audio_present, handle_present);
            let stop = spec_stop_steps(handle_present);
            plan.subrange(plan.len() - stop.len(), plan.len() as int) =~= stop
        }),
{
}

} // verus!
