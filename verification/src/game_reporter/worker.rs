//! The life of the processing thread, as a state machine.
//!
//! The thread waits for an event while it is idle. A report that became
//! available makes it drain the queue; a shutdown makes it drain the queue
//! one last time, with a single send for each report, and then end. The
//! thread that runs the machine waits, sends and sleeps; the machine decides.

use vstd::prelude::*;
use crate::game_reporter::queue::ProcessingEvent;

verus! {

/// Where the processing thread stands.
#[derive(Copy, Clone, Debug, PartialEq, Eq, Structural)]
pub enum WorkerState {
    /// Waiting for an event.
    Idle,
    /// Sending the pending reports, oldest first.
    Draining,
    /// Sending the pending reports for the last time, once each.
    ShuttingDown,
    /// Done: the thread ends.
    Terminated,
}

impl WorkerState {
    /// The state after something was received from the event channel:
    /// an event, or `None` where the channel was closed with no shutdown.
    ///
    /// A closed channel ends an idle thread. A shutdown takes over from
    /// waiting and from draining alike.
    pub open spec fn after_receive(self, received: Option<ProcessingEvent>) -> WorkerState {
        match (self, received) {
            (WorkerState::Idle, Some(ProcessingEvent::ReportAvailable)) => WorkerState::Draining,
            (WorkerState::Idle, Some(ProcessingEvent::Shutdown)) => WorkerState::ShuttingDown,
            (WorkerState::Idle, None) => WorkerState::Terminated,
            (WorkerState::Draining, Some(ProcessingEvent::Shutdown)) => WorkerState::ShuttingDown,
            (state, _) => state,
        }
    }

    /// The state after a pass over the queue has ended.
    pub open spec fn after_pass(self) -> WorkerState {
        match self {
            WorkerState::Draining => WorkerState::Idle,
            WorkerState::ShuttingDown => WorkerState::Terminated,
            state => state,
        }
    }

    /// The event under which the queue is drained in this state, if it is.
    pub open spec fn draining_under(self) -> Option<ProcessingEvent> {
        match self {
            WorkerState::Draining => Some(ProcessingEvent::ReportAvailable),
            WorkerState::ShuttingDown => Some(ProcessingEvent::Shutdown),
            _ => None,
        }
    }

    /// The state in which the thread starts.
    pub fn new() -> (state: WorkerState)
        ensures
            state == WorkerState::Idle,
    {
        WorkerState::Idle
    }

    /// Moves on after something was received from the event channel: an
    /// event, or `None` where the channel was closed with no shutdown.
    pub fn on_receive(self, received: Option<ProcessingEvent>) -> (next: WorkerState)
        ensures
            next == self.after_receive(received),
    {
        match self {
            WorkerState::Idle => match received {
                Some(ProcessingEvent::ReportAvailable) => WorkerState::Draining,
                Some(ProcessingEvent::Shutdown) => WorkerState::ShuttingDown,
                None => WorkerState::Terminated,
            },
            WorkerState::Draining => match received {
                Some(ProcessingEvent::Shutdown) => WorkerState::ShuttingDown,
                _ => WorkerState::Draining,
            },
            state => state,
        }
    }

    /// Moves on after a pass over the queue has ended, whether the queue is
    /// empty or the pass was given up.
    pub fn on_pass_ended(self) -> (next: WorkerState)
        ensures
            next == self.after_pass(),
    {
        match self {
            WorkerState::Draining => WorkerState::Idle,
            WorkerState::ShuttingDown => WorkerState::Terminated,
            state => state,
        }
    }

    /// The event under which the queue is to be drained now, or `None` where
    /// there is nothing to drain in this state.
    pub fn drain_event(self) -> (event: Option<ProcessingEvent>)
        ensures
            event == self.draining_under(),
    {
        match self {
            WorkerState::Draining => Some(ProcessingEvent::ReportAvailable),
            WorkerState::ShuttingDown => Some(ProcessingEvent::Shutdown),
            _ => None,
        }
    }

    /// Whether the thread is to end.
    pub fn is_terminated(self) -> (r: bool)
        ensures
            r == (self == WorkerState::Terminated),
    {
        match self {
            WorkerState::Terminated => true,
            _ => false,
        }
    }
}

/// Once a shutdown was received, the thread ends after the pass that
/// follows: whatever is received meanwhile, the next pass that ends leaves it
/// terminated.
pub proof fn lemma_shutdown_terminates(state: WorkerState, received: Option<ProcessingEvent>)
    requires
        state == WorkerState::Idle || state == WorkerState::Draining,
    ensures
        state.after_receive(Some(ProcessingEvent::Shutdown)) == WorkerState::ShuttingDown,
        WorkerState::ShuttingDown.after_receive(received) == WorkerState::ShuttingDown,
        WorkerState::ShuttingDown.draining_under() == Some(ProcessingEvent::Shutdown),
        WorkerState::ShuttingDown.after_pass() == WorkerState::Terminated,
{
}

/// A terminated thread stays terminated.
pub proof fn lemma_terminated_is_final(received: Option<ProcessingEvent>)
    ensures
        WorkerState::Terminated.after_receive(received) == WorkerState::Terminated,
        WorkerState::Terminated.after_pass() == WorkerState::Terminated,
        WorkerState::Terminated.draining_under().is_none(),
{
}

} // verus!
