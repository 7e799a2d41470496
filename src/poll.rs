use vstd::prelude::*;

use crate::outcome::{AttemptOutcome, Failure, SoftError};

verus! {

/// The state of the poll loop.
#[derive(Clone, Copy, Debug, PartialEq, Eq, Structural)]
pub enum PollState {
    Running,
    DoneSuccess,
    DoneFailure,
}

/// What the poll loop reports after a tick.
#[derive(Debug)]
pub enum Notice {
    /// Nothing to report.
    Quiet,
    /// A recoverable problem; polling goes on.
    SoftError(SoftError),
    /// The issue with the threshold's number was created.
    Succeeded,
    /// Polling stops without that issue.
    Failed(Failure),
}

impl PollState {
    pub open spec fn terminal(self) -> bool {
        self != PollState::Running
    }

    /// Whether no further tick is scheduled.
    pub fn is_terminal(&self) -> (b: bool)
        ensures
            b == self.terminal(),
    {
        *self != PollState::Running
    }
}

pub open spec fn poll_transition(state: PollState, outcome: AttemptOutcome) -> (PollState, Notice) {
    if state.terminal() {
        (state, Notice::Quiet)
    } else {
        match outcome {
            AttemptOutcome::Continue(None) => (PollState::Running, Notice::Quiet),
            AttemptOutcome::Continue(Some(e)) => (PollState::Running, Notice::SoftError(e)),
            AttemptOutcome::Terminate(Ok(())) => (PollState::DoneSuccess, Notice::Succeeded),
            AttemptOutcome::Terminate(Err(f)) => (PollState::DoneFailure, Notice::Failed(f)),
        }
    }
}

/// Moves the poll loop on by the outcome of one tick. Both terminal states
/// absorb: once there, an outcome changes nothing and reports nothing.
pub fn on_outcome(state: PollState, outcome: AttemptOutcome) -> (r: (PollState, Notice))
    ensures
        r == poll_transition(state, outcome),
        state.terminal() ==> r.0 == state,
        r.0 == PollState::Running <==> (!state.terminal() && outcome is Continue),
{
    if state.is_terminal() {
        (state, Notice::Quiet)
    } else {
        match outcome {
            AttemptOutcome::Continue(None) => (PollState::Running, Notice::Quiet),
            AttemptOutcome::Continue(Some(e)) => (PollState::Running, Notice::SoftError(e)),
            AttemptOutcome::Terminate(Ok(())) => (PollState::DoneSuccess, Notice::Succeeded),
            AttemptOutcome::Terminate(Err(f)) => (PollState::DoneFailure, Notice::Failed(f)),
        }
    }
}

} // verus!
