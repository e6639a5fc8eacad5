use chain_sync::worker::{worker_step, WorkerAction, WorkerEvent, WorkerPhase};

#[test]
fn start_subscribes_once() {
    let (phase, action) = worker_step(WorkerPhase::Idle, WorkerEvent::Start);
    assert_eq!(phase, WorkerPhase::Subscribed);
    assert_eq!(action, Some(WorkerAction::IssueSubscribe));

    // A second start changes nothing: the subscribe write is one-time.
    let (again, action) = worker_step(phase, WorkerEvent::Start);
    assert_eq!(again, WorkerPhase::Subscribed);
    assert_eq!(action, None);
}

#[test]
fn each_notification_runs_one_cycle_and_returns() {
    let (phase, action) = worker_step(WorkerPhase::Subscribed, WorkerEvent::Notification);
    assert_eq!(phase, WorkerPhase::Syncing);
    assert_eq!(action, Some(WorkerAction::RunCycle));

    // Finishing the cycle always returns the worker to listening,
    // regardless of per-record failures within the cycle.
    let (phase, action) = worker_step(phase, WorkerEvent::CycleDone);
    assert_eq!(phase, WorkerPhase::Subscribed);
    assert_eq!(action, None);
}

#[test]
fn notification_during_a_cycle_starts_no_second_cycle() {
    // Cycles of one worker never overlap: while syncing, a delivered
    // notification triggers nothing; the stream buffers it.
    let (phase, action) = worker_step(WorkerPhase::Syncing, WorkerEvent::Notification);
    assert_eq!(phase, WorkerPhase::Syncing);
    assert_eq!(action, None);
}

#[test]
fn idle_worker_ignores_notifications() {
    let (phase, action) = worker_step(WorkerPhase::Idle, WorkerEvent::Notification);
    assert_eq!(phase, WorkerPhase::Idle);
    assert_eq!(action, None);
}
