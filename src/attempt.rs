use vstd::prelude::*;

use crate::outcome::{
    compare_to_next, verdict_of, AppError, AttemptOutcome, Failure, SoftError, Verdict,
};

verus! {

/// What the caller is asked to do next.
#[derive(Debug)]
pub enum AttemptAction {
    /// Read the single most recently created issue.
    FetchLatest,
    /// Create the new issue.
    Submit,
    /// The attempt is over.
    Finish(AttemptOutcome),
}

/// The answer to an action, handed back by the caller.
pub enum AttemptEvent {
    /// The numbers of the listed issues, newest first, or why the read failed.
    Listed(Result<Vec<u64>, AppError>),
    /// The number of the created issue, or why the creation failed.
    Posted(Result<u64, AppError>),
}

/// How far one attempt has gone.
#[derive(Clone, Copy, Debug, PartialEq, Eq, Structural)]
pub enum Phase {
    /// Waiting for the listing of the latest issue.
    Listing,
    /// Waiting for the answer to the creation request.
    Submitting,
    /// No further event is taken.
    Finished,
}

/// What to do once the latest issue has been read (or not).
pub open spec fn listing_action(threshold: u64, listing: Result<Vec<u64>, AppError>) -> AttemptAction {
    match listing {
        Err(e) => AttemptAction::Finish(AttemptOutcome::Continue(Some(SoftError::Read(e)))),
        Ok(numbers) => if numbers@.len() == 0 {
            AttemptAction::Finish(AttemptOutcome::Continue(Some(SoftError::EmptyListing)))
        } else {
            match verdict_of(threshold, numbers@[0]) {
                Verdict::Wait => AttemptAction::Finish(AttemptOutcome::Continue(None)),
                Verdict::Submit => AttemptAction::Submit,
                Verdict::Missed => AttemptAction::Finish(
                    AttemptOutcome::Terminate(Err(Failure::WindowMissed { latest: numbers@[0] })),
                ),
            }
        },
    }
}

/// How an attempt ends once the creation request has been answered.
pub open spec fn submission_outcome(threshold: u64, posted: Result<u64, AppError>) -> AttemptOutcome {
    match posted {
        Err(e) => AttemptOutcome::Terminate(Err(Failure::SubmitFailed(e))),
        Ok(n) => if n == threshold {
            AttemptOutcome::Terminate(Ok(()))
        } else {
            AttemptOutcome::Terminate(Err(Failure::RaceLost { posted: n }))
        },
    }
}

/// The action that answers an event.
pub open spec fn next_action(threshold: u64, event: AttemptEvent) -> AttemptAction {
    match event {
        AttemptEvent::Listed(l) => listing_action(threshold, l),
        AttemptEvent::Posted(p) => AttemptAction::Finish(submission_outcome(threshold, p)),
    }
}

/// The phase an attempt is in once it has asked for `action`.
pub open spec fn phase_after(action: AttemptAction) -> Phase {
    match action {
        AttemptAction::FetchLatest => Phase::Listing,
        AttemptAction::Submit => Phase::Submitting,
        AttemptAction::Finish(_) => Phase::Finished,
    }
}

/// Whether an attempt in `phase` takes `event`.
pub open spec fn takes(phase: Phase, event: AttemptEvent) -> bool {
    match event {
        AttemptEvent::Listed(_) => phase == Phase::Listing,
        AttemptEvent::Posted(_) => phase == Phase::Submitting,
    }
}

/// Decides on the listing of the latest issue: a failed read or an empty
/// listing is a soft error; otherwise the threshold is compared with the
/// number after the newest issue's.
pub fn after_listing(threshold: u64, listing: Result<Vec<u64>, AppError>) -> (a: AttemptAction)
    ensures
        a == listing_action(threshold, listing),
{
    match listing {
        Err(e) => AttemptAction::Finish(AttemptOutcome::Continue(Some(SoftError::Read(e)))),
        Ok(numbers) => {
            if numbers.len() == 0 {
                AttemptAction::Finish(AttemptOutcome::Continue(Some(SoftError::EmptyListing)))
            } else {
                let latest = numbers[0];
                match compare_to_next(threshold, latest) {
                    Verdict::Wait => AttemptAction::Finish(AttemptOutcome::Continue(None)),
                    Verdict::Submit => AttemptAction::Submit,
                    Verdict::Missed => AttemptAction::Finish(
                        AttemptOutcome::Terminate(Err(Failure::WindowMissed { latest })),
                    ),
                }
            }
        },
    }
}

/// Decides on the answer to the creation request: every failure is final,
/// and success means the created issue carries the threshold.
pub fn after_submission(threshold: u64, posted: Result<u64, AppError>) -> (o: AttemptOutcome)
    ensures
        o == submission_outcome(threshold, posted),
{
    match posted {
        Err(e) => AttemptOutcome::Terminate(Err(Failure::SubmitFailed(e))),
        Ok(n) => {
            if n == threshold {
                AttemptOutcome::Terminate(Ok(()))
            } else {
                AttemptOutcome::Terminate(Err(Failure::RaceLost { posted: n }))
            }
        },
    }
}

/// One tick's attempt to create the issue numbered `threshold`.
pub struct Attempt {
    threshold: u64,
    phase: Phase,
}

impl Attempt {
    pub closed spec fn spec_threshold(&self) -> u64 {
        self.threshold
    }

    pub closed spec fn spec_phase(&self) -> Phase {
        self.phase
    }

    /// Starts an attempt; its first action is to read the latest issue.
    pub fn new(threshold: u64) -> (r: (Attempt, AttemptAction))
        ensures
            r.0.spec_threshold() == threshold,
            r.0.spec_phase() == Phase::Listing,
            r.1 is FetchLatest,
    {
        (Attempt { threshold, phase: Phase::Listing }, AttemptAction::FetchLatest)
    }

    pub fn threshold(&self) -> (t: u64)
        ensures
            t == self.spec_threshold(),
    {
        self.threshold
    }

    pub fn phase(&self) -> (p: Phase)
        ensures
            p == self.spec_phase(),
    {
        self.phase
    }

    /// Whether the attempt, in its present phase, takes `event`.
    pub fn accepts(&self, event: &AttemptEvent) -> (b: bool)
        ensures
            b == takes(self.spec_phase(), *event),
    {
        match event {
            AttemptEvent::Listed(_) => self.phase == Phase::Listing,
            AttemptEvent::Posted(_) => self.phase == Phase::Submitting,
        }
    }

    /// Takes the answer to the last action and returns the next one.
    pub fn step(&mut self, event: AttemptEvent) -> (a: AttemptAction)
        requires
            takes(old(self).spec_phase(), event),
        ensures
            a == next_action(old(self).spec_threshold(), event),
            final(self).spec_threshold() == old(self).spec_threshold(),
            final(self).spec_phase() == phase_after(a),
    {
        let a = match event {
            AttemptEvent::Listed(l) => after_listing(self.threshold, l),
            AttemptEvent::Posted(p) => AttemptAction::Finish(after_submission(self.threshold, p)),
        };
        self.phase = match a {
            AttemptAction::FetchLatest => Phase::Listing,
            AttemptAction::Submit => Phase::Submitting,
            AttemptAction::Finish(_) => Phase::Finished,
        };
        a
    }
}

} // verus!
