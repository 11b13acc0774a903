//! What a worker does after each event of its main loop.
use vstd::prelude::*;

verus! {

/// What happened while the worker waited.
#[derive(Debug, Clone, Copy, PartialEq, Eq, Structural)]
pub enum LoopEvent {
    /// SIGTERM arrived.
    TerminateSignal,
    /// SIGINT arrived.
    InterruptSignal,
    /// A job was claimed.
    ClaimedJob,
    /// No job was ready to be claimed.
    NoJob,
    /// Claiming a job failed.
    ClaimFailed,
}

/// What the worker does next.
#[derive(Debug, Clone, Copy, PartialEq, Eq, Structural)]
pub enum LoopAction {
    /// Leave the loop, record the shutdown and exit.
    Stop,
    /// Execute the claimed job, then wait again.
    ExecuteJob,
    /// Sleep for `millis` milliseconds, then wait again.
    Sleep { millis: u64 },
    /// Log the error, then wait again.
    ReportError,
}

/// The worker's reaction to an event: a signal stops it; a claimed job is
/// executed; with nothing to claim it sleeps for 100 ms; a failed claim is
/// logged.
pub open spec fn next_action_spec(event: LoopEvent) -> LoopAction {
    match event {
        LoopEvent::TerminateSignal => LoopAction::Stop,
        LoopEvent::InterruptSignal => LoopAction::Stop,
        LoopEvent::ClaimedJob => LoopAction::ExecuteJob,
        LoopEvent::NoJob => LoopAction::Sleep { millis: 100 },
        LoopEvent::ClaimFailed => LoopAction::ReportError,
    }
}

/// The worker's reaction to an event (see `next_action_spec`).
pub fn next_action(event: LoopEvent) -> (action: LoopAction)
    ensures
        action == next_action_spec(event),
{
    match event {
        LoopEvent::TerminateSignal => LoopAction::Stop,
        LoopEvent::InterruptSignal => LoopAction::Stop,
        LoopEvent::ClaimedJob => LoopAction::ExecuteJob,
        LoopEvent::NoJob => LoopAction::Sleep { millis: 100 },
        LoopEvent::ClaimFailed => LoopAction::ReportError,
    }
}

/// Only a signal ends the worker's loop: no outcome of a claim stops it.
pub proof fn lemma_only_signals_stop(event: LoopEvent)
    ensures
        next_action_spec(event) == LoopAction::Stop <==> (event == LoopEvent::TerminateSignal
            || event == LoopEvent::InterruptSignal),
{
}

} // verus!
