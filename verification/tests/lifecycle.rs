use bot_lifecycle::cancel::CancelFlag;
use bot_lifecycle::drive::drive_step;
use bot_lifecycle::drive::finish_drive;
use bot_lifecycle::drive::try_start_drive;
use bot_lifecycle::drive::DriveEvent;
use bot_lifecycle::drive::DriveState;
use bot_lifecycle::drive::ExitReason;
use bot_lifecycle::lock::AcquireOutcome;
use bot_lifecycle::lock::ClientLock;
use bot_lifecycle::supervisor::DiscordBot;
use bot_lifecycle::supervisor::ShutdownStep;
use bot_lifecycle::supervisor::GRACE_DELAY_MS;

#[test]
fn cancel_trigger_is_idempotent() {
    let mut flag = CancelFlag::new();
    assert!(!flag.is_triggered());
    flag.trigger();
    assert!(flag.is_triggered());
    let after_one = flag;
    flag.trigger();
    flag.trigger();
    flag.trigger();
    assert!(flag.is_triggered());
    assert_eq!(flag, after_one);
}

#[test]
fn cancel_never_resets() {
    let mut flag = CancelFlag::new();
    flag.trigger();
    assert!(flag.is_triggered());
    flag.trigger();
    assert!(flag.is_triggered());
}

#[test]
fn exclusive_lock_serializes_acquisitions() {
    let mut lock = ClientLock::new();
    assert_eq!(lock.acquire(), AcquireOutcome::Acquired);
    assert_eq!(lock.acquire(), AcquireOutcome::MustWait);
    assert_eq!(lock.acquire(), AcquireOutcome::MustWait);
    lock.release();
    assert_eq!(lock.acquire(), AcquireOutcome::Acquired);
}

#[test]
fn drive_race_natural_completion_first() {
    let running = DriveState::Running;
    let finished = drive_step(running, DriveEvent::DriveReturned);
    assert_eq!(finished, DriveState::Finished(ExitReason::NaturalStop));
    let late = drive_step(finished, DriveEvent::CancelFired);
    assert_eq!(late, finished);
}

#[test]
fn drive_race_cancellation_first() {
    let running = DriveState::Running;
    let finished = drive_step(running, DriveEvent::CancelFired);
    assert_eq!(finished, DriveState::Finished(ExitReason::Cancelled));
    let late = drive_step(finished, DriveEvent::DriveReturned);
    assert_eq!(late, finished);
}

#[test]
fn drive_holds_the_lock_for_its_whole_lifetime() {
    let mut lock = ClientLock::new();
    let task = try_start_drive(&mut lock).expect("free lock must admit a drive");
    assert_eq!(task, DriveState::Running);
    assert!(try_start_drive(&mut lock).is_none());
    assert!(try_start_drive(&mut lock).is_none());
    let done = finish_drive(&mut lock, task, DriveEvent::CancelFired);
    assert_eq!(done, DriveState::Finished(ExitReason::Cancelled));
    let second = try_start_drive(&mut lock).expect("released lock must admit the next drive");
    assert_eq!(second, DriveState::Running);
}

#[test]
fn start_shards_stores_the_handle() {
    let mut bot = DiscordBot::new(1, 2, 3, false);
    let handle = bot.start_shards(4);
    assert_eq!(handle.num_shards, 4);
    assert_eq!(bot.shard_handle, Some(handle));
}

#[test]
fn shutdown_quiesces_audio_before_cancelling() {
    let mut bot = DiscordBot::new(1, 2, 3, true);
    bot.start_shards(2);
    let steps = bot.shutdown();
    assert_eq!(
        steps,
        vec![
            ShutdownStep::AudioShutdown,
            ShutdownStep::GraceDelay(GRACE_DELAY_MS),
            ShutdownStep::TriggerCancel,
            ShutdownStep::AwaitShardTask,
        ]
    );
    let audio_at = steps
        .iter()
        .position(|s| *s == ShutdownStep::AudioShutdown)
        .unwrap();
    let cancel_at = steps
        .iter()
        .position(|s| *s == ShutdownStep::TriggerCancel)
        .unwrap();
    assert!(audio_at < cancel_at);
}

#[test]
fn shutdown_with_nothing_running_is_clean() {
    let bot = DiscordBot::new(1, 2, 3, false);
    let steps = bot.shutdown();
    assert_eq!(
        steps,
        vec![
            ShutdownStep::GraceDelay(GRACE_DELAY_MS),
            ShutdownStep::TriggerCancel,
            ShutdownStep::LogNoShardHandle,
        ]
    );
    assert!(steps.contains(&ShutdownStep::LogNoShardHandle));
    assert!(!steps.contains(&ShutdownStep::AwaitShardTask));
    assert!(!steps.contains(&ShutdownStep::AudioShutdown));
}

#[test]
fn stop_shards_cancels_then_awaits_stored_task() {
    let mut bot = DiscordBot::new(1, 2, 3, false);
    bot.start_shards(1);
    let steps = bot.stop_shards();
    assert_eq!(
        steps,
        vec![ShutdownStep::TriggerCancel, ShutdownStep::AwaitShardTask]
    );
    assert!(bot.cancel.is_triggered());
    assert_eq!(bot.shard_handle, None);
}

#[test]
fn stop_shards_without_task_logs_missing_handle() {
    let mut bot = DiscordBot::new(1, 2, 3, false);
    let steps = bot.stop_shards();
    assert_eq!(
        steps,
        vec![ShutdownStep::TriggerCancel, ShutdownStep::LogNoShardHandle]
    );
    assert!(bot.cancel.is_triggered());
}
