//! The chain worker's control loop as a state machine.
//!
//! A worker issues one subscribe write when it starts, then only reacts:
//! each notification runs one sync cycle, cycles of one worker never
//! overlap, and a finished cycle always returns the worker to listening,
//! whatever happened to the individual record kinds. The loop around this
//! machine performs the subscribe write and the cycles; the machine decides
//! every transition.

use vstd::prelude::*;

verus! {

/// Where a worker stands in its loop.
#[derive(Clone, Copy, Debug, PartialEq, Eq, Structural)]
pub enum WorkerPhase {
    /// Constructed, subscribe not yet issued.
    Idle,
    /// Listening for the next notification.
    Subscribed,
    /// Running one sync cycle; a notification arriving now is buffered by
    /// the subscription stream and delivered once the worker listens again.
    Syncing,
}

/// What the loop observes.
#[derive(Clone, Copy, Debug, PartialEq, Eq, Structural)]
pub enum WorkerEvent {
    /// The worker is started.
    Start,
    /// A notification was delivered.
    Notification,
    /// The running cycle finished, with or without per-record failures; the
    /// event deliberately carries no failure information, because failures
    /// never stop the loop.
    CycleDone,
}

/// What the loop must perform on a transition.
#[derive(Clone, Copy, Debug, PartialEq, Eq, Structural)]
pub enum WorkerAction {
    /// Issue the one-time subscribe write.
    IssueSubscribe,
    /// Run one sync cycle.
    RunCycle,
}

/// One transition of the worker loop: the next phase and the action owed.
/// An event that does not belong to the current phase changes nothing.
pub fn worker_step(phase: WorkerPhase, event: WorkerEvent) -> (r: (
    WorkerPhase,
    Option<WorkerAction>,
))
    ensures
        phase == WorkerPhase::Idle && event == WorkerEvent::Start ==> r == (
            WorkerPhase::Subscribed,
            Some(WorkerAction::IssueSubscribe),
        ),
        phase == WorkerPhase::Subscribed && event == WorkerEvent::Notification ==> r == (
            WorkerPhase::Syncing,
            Some(WorkerAction::RunCycle),
        ),
        phase == WorkerPhase::Syncing && event == WorkerEvent::CycleDone ==> r == (
            WorkerPhase::Subscribed,
            None::<WorkerAction>,
        ),
        !match (phase, event) {
            (WorkerPhase::Idle, WorkerEvent::Start) => true,
            (WorkerPhase::Subscribed, WorkerEvent::Notification) => true,
            (WorkerPhase::Syncing, WorkerEvent::CycleDone) => true,
            _ => false,
        } ==> r == (phase, None::<WorkerAction>),
{
    match (phase, event) {
        (WorkerPhase::Idle, WorkerEvent::Start) => (
            WorkerPhase::Subscribed,
            Some(WorkerAction::IssueSubscribe),
        ),
        (WorkerPhase::Subscribed, WorkerEvent::Notification) => (
            WorkerPhase::Syncing,
            Some(WorkerAction::RunCycle),
        ),
        (WorkerPhase::Syncing, WorkerEvent::CycleDone) => (WorkerPhase::Subscribed, None),
        _ => (phase, None),
    }
}

/// The spec-level transition of [`worker_step`], for stating laws about
/// event sequences.
pub open spec fn spec_worker_step(phase: WorkerPhase, event: WorkerEvent) -> WorkerPhase {
    match (phase, event) {
        (WorkerPhase::Idle, WorkerEvent::Start) => WorkerPhase::Subscribed,
        (WorkerPhase::Subscribed, WorkerEvent::Notification) => WorkerPhase::Syncing,
        (WorkerPhase::Syncing, WorkerEvent::CycleDone) => WorkerPhase::Subscribed,
        _ => phase,
    }
}

/// A notification's cycle always returns the worker to listening: from
/// `Subscribed`, handling a notification and finishing its cycle ends in
/// `Subscribed` again. There is no terminal state: from any phase, every
/// event leads to a phase from which the loop continues.
pub proof fn lemma_cycle_returns_to_subscribed(phase: WorkerPhase, event: WorkerEvent)
    ensures
        spec_worker_step(
            spec_worker_step(WorkerPhase::Subscribed, WorkerEvent::Notification),
            WorkerEvent::CycleDone,
        ) == WorkerPhase::Subscribed,
        spec_worker_step(phase, event) == WorkerPhase::Idle ==> phase == WorkerPhase::Idle,
{
}

} // verus!
