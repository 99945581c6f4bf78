use vstd::prelude::*;

verus! {

/// Seconds between two reaper passes.
pub const REAPER_INTERVAL_SECS: u64 = 60;

/// Where the background reaper stands.
#[derive(Debug, Clone, Copy, PartialEq, Eq, Structural)]
pub enum ReaperState {
    /// Waiting for the next tick.
    Idle,
    /// A pass is deleting expired sessions.
    Reaping,
    /// Shutdown was requested while a pass runs; the pass is let finish.
    Draining,
    /// The task has ended.
    Stopped,
}

/// What happened to the reaper.
#[derive(Debug, Clone, Copy, PartialEq, Eq, Structural)]
pub enum ReaperEvent {
    /// The interval elapsed.
    Tick,
    /// The running pass completed.
    PassDone,
    /// The running pass failed (for instance a delete was refused).
    PassFailed,
    /// The process is shutting down.
    Shutdown,
}

/// What the task running the reaper does next.
#[derive(Debug, Clone, Copy, PartialEq, Eq, Structural)]
pub enum ReaperAction {
    /// Start a pass that deletes the expired sessions.
    RunPass,
    /// Sleep until the next tick.
    Sleep,
    /// Log the failure, then sleep until the next tick; the next pass retries.
    LogFailure,
    /// Keep waiting for the running pass.
    AwaitPass,
    /// End the task.
    Exit,
}

/// The reaper's transition on `e` from `s`.
pub open spec fn reaper_transition(s: ReaperState, e: ReaperEvent) -> (ReaperState, ReaperAction) {
    match (s, e) {
        (ReaperState::Stopped, _) => (ReaperState::Stopped, ReaperAction::Exit),
        (ReaperState::Idle, ReaperEvent::Tick) => (ReaperState::Reaping, ReaperAction::RunPass),
        (ReaperState::Idle, ReaperEvent::Shutdown) => (ReaperState::Stopped, ReaperAction::Exit),
        (ReaperState::Idle, _) => (ReaperState::Idle, ReaperAction::Sleep),
        (ReaperState::Reaping, ReaperEvent::PassDone) => (ReaperState::Idle, ReaperAction::Sleep),
        (ReaperState::Reaping, ReaperEvent::PassFailed) => (
            ReaperState::Idle,
            ReaperAction::LogFailure,
        ),
        (ReaperState::Reaping, ReaperEvent::Shutdown) => (
            ReaperState::Draining,
            ReaperAction::AwaitPass,
        ),
        (ReaperState::Reaping, ReaperEvent::Tick) => (ReaperState::Reaping, ReaperAction::AwaitPass),
        (ReaperState::Draining, ReaperEvent::PassDone) => (ReaperState::Stopped, ReaperAction::Exit),
        (ReaperState::Draining, ReaperEvent::PassFailed) => (
            ReaperState::Stopped,
            ReaperAction::Exit,
        ),
        (ReaperState::Draining, _) => (ReaperState::Draining, ReaperAction::AwaitPass),
    }
}

/// Decides the reaper's next state and action. A shutdown never cuts a
/// running pass short, a failed pass never ends the task, and once stopped
/// the reaper stays stopped.
pub fn reaper_step(s: ReaperState, e: ReaperEvent) -> (r: (ReaperState, ReaperAction))
    ensures
        r == reaper_transition(s, e),
        s == ReaperState::Stopped ==> r.0 == ReaperState::Stopped,
        e == ReaperEvent::PassFailed && s == ReaperState::Reaping ==> r.0 == ReaperState::Idle,
        s == ReaperState::Reaping && e == ReaperEvent::Shutdown ==> r.1 == ReaperAction::AwaitPass,
        r.1 == ReaperAction::Exit <==> r.0 == ReaperState::Stopped,
{
    match (s, e) {
        (ReaperState::Stopped, _) => (ReaperState::Stopped, ReaperAction::Exit),
        (ReaperState::Idle, ReaperEvent::Tick) => (ReaperState::Reaping, ReaperAction::RunPass),
        (ReaperState::Idle, ReaperEvent::Shutdown) => (ReaperState::Stopped, ReaperAction::Exit),
        (ReaperState::Idle, _) => (ReaperState::Idle, ReaperAction::Sleep),
        (ReaperState::Reaping, ReaperEvent::PassDone) => (ReaperState::Idle, ReaperAction::Sleep),
        (ReaperState::Reaping, ReaperEvent::PassFailed) => (
            ReaperState::Idle,
            ReaperAction::LogFailure,
        ),
        (ReaperState::Reaping, ReaperEvent::Shutdown) => (
            ReaperState::Draining,
            ReaperAction::AwaitPass,
        ),
        (ReaperState::Reaping, ReaperEvent::Tick) => (ReaperState::Reaping, ReaperAction::AwaitPass),
        (ReaperState::Draining, ReaperEvent::PassDone) => (ReaperState::Stopped, ReaperAction::Exit),
        (ReaperState::Draining, ReaperEvent::PassFailed) => (
            ReaperState::Stopped,
            ReaperAction::Exit,
        ),
        (ReaperState::Draining, _) => (ReaperState::Draining, ReaperAction::AwaitPass),
    }
}

} // verus!
