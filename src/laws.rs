use vstd::prelude::*;

use crate::attempt::{
    listing_action, next_action, submission_outcome, AttemptAction, AttemptEvent,
};
use crate::outcome::{next_number, AppError, AttemptOutcome, Failure, SoftError};
use crate::poll::{poll_transition, PollState};

verus! {

/// One whole tick, driven through `next_action`: the listing read first and,
/// only when a creation request is made, `posted` as its answer. Gives the
/// number of creation requests made and the outcome.
pub open spec fn tick(
    threshold: u64,
    listing: Result<Vec<u64>, AppError>,
    posted: Result<u64, AppError>,
) -> (nat, AttemptOutcome) {
    match next_action(threshold, AttemptEvent::Listed(listing)) {
        AttemptAction::Submit => match next_action(threshold, AttemptEvent::Posted(posted)) {
            AttemptAction::Finish(o) => (1, o),
            // Never taken: the answer to a creation request finishes the
            // attempt. A machine that asked for more would be counted here.
            _ => (2, AttemptOutcome::Continue(None)),
        },
        AttemptAction::Finish(o) => (0, o),
        // Never taken: a listing is never answered by another read.
        AttemptAction::FetchLatest => (0, AttemptOutcome::Continue(None)),
    }
}

/// The poll loop over a run of ticks, each given by its listing and the answer
/// a creation request would get. Gives the final state and the number of
/// creation requests made; ticks after a terminal state are not run.
pub open spec fn poll_run(
    threshold: u64,
    state: PollState,
    ticks: Seq<(Result<Vec<u64>, AppError>, Result<u64, AppError>)>,
) -> (PollState, nat)
    decreases ticks.len(),
{
    if ticks.len() == 0 || state.terminal() {
        (state, 0)
    } else {
        let (writes, outcome) = tick(threshold, ticks[0].0, ticks[0].1);
        let after = poll_transition(state, outcome).0;
        let rest = poll_run(threshold, after, ticks.drop_first());
        (rest.0, writes + rest.1)
    }
}

/// The latest issue's number in a listing that read at least one issue.
pub open spec fn latest_of(listing: Result<Vec<u64>, AppError>) -> u64 {
    listing->Ok_0@[0]
}

pub open spec fn lists_some(listing: Result<Vec<u64>, AppError>) -> bool {
    listing is Ok && listing->Ok_0@.len() > 0
}

/// While the threshold lies beyond the next number, a tick keeps polling
/// quietly and makes no creation request.
pub proof fn lemma_wait_makes_no_request(
    threshold: u64,
    listing: Result<Vec<u64>, AppError>,
    posted: Result<u64, AppError>,
)
    requires
        lists_some(listing),
        threshold > next_number(latest_of(listing)),
    ensures
        tick(threshold, listing, posted) == (0nat, AttemptOutcome::Continue(None)),
        !(listing_action(threshold, listing) is Submit),
{
}

/// Once the threshold is below the next number, a tick fails for good without
/// making a creation request.
pub proof fn lemma_missed_makes_no_request(
    threshold: u64,
    listing: Result<Vec<u64>, AppError>,
    posted: Result<u64, AppError>,
)
    requires
        lists_some(listing),
        threshold < next_number(latest_of(listing)),
    ensures
        tick(threshold, listing, posted) == (
        0nat,
        AttemptOutcome::Terminate(Err(Failure::WindowMissed { latest: latest_of(listing) })),
        ),
{
}

/// When the threshold is exactly the next number, a tick makes exactly one
/// creation request, whatever its answer, and asks for nothing after it.
pub proof fn lemma_exact_makes_one_request(
    threshold: u64,
    listing: Result<Vec<u64>, AppError>,
    posted: Result<u64, AppError>,
)
    requires
        lists_some(listing),
        threshold == next_number(latest_of(listing)),
    ensures
        listing_action(threshold, listing) is Submit,
        next_action(threshold, AttemptEvent::Posted(posted)) is Finish,
        tick(threshold, listing, posted).0 == 1,
        tick(threshold, listing, posted).1 is Terminate,
{
}

/// A creation request answered with the threshold's number ends the tick in
/// success.
pub proof fn lemma_posted_threshold_succeeds(threshold: u64, listing: Result<Vec<u64>, AppError>)
    requires
        lists_some(listing),
        threshold == next_number(latest_of(listing)),
    ensures
        submission_outcome(threshold, Ok(threshold)) == AttemptOutcome::Terminate(Ok(())),
        tick(threshold, listing, Ok(threshold)) == (1nat, AttemptOutcome::Terminate(Ok(()))),
{
}

/// A creation request answered with another number ends the tick in failure.
pub proof fn lemma_posted_other_number_fails(
    threshold: u64,
    listing: Result<Vec<u64>, AppError>,
    number: u64,
)
    requires
        lists_some(listing),
        threshold == next_number(latest_of(listing)),
        number != threshold,
    ensures
        submission_outcome(threshold, Ok(number)) == AttemptOutcome::Terminate(
            Err(Failure::RaceLost { posted: number }),
        ),
        tick(threshold, listing, Ok(number)) == (
        1nat,
        AttemptOutcome::Terminate(Err(Failure::RaceLost { posted: number })),
        ),
{
}

/// A failed creation request ends the tick in failure, never in `Continue`.
pub proof fn lemma_failed_request_terminates(
    threshold: u64,
    listing: Result<Vec<u64>, AppError>,
    error: AppError,
)
    requires
        lists_some(listing),
        threshold == next_number(latest_of(listing)),
    ensures
        submission_outcome(threshold, Err(error)) == AttemptOutcome::Terminate(
            Err(Failure::SubmitFailed(error)),
        ),
        tick(threshold, listing, Err(error)) == (
        1nat,
        AttemptOutcome::Terminate(Err(Failure::SubmitFailed(error))),
        ),
{
}

/// A read that fails, or that lists no issue, is a soft error: the tick keeps
/// polling and makes no creation request.
pub proof fn lemma_read_failure_is_soft(
    threshold: u64,
    listing: Result<Vec<u64>, AppError>,
    posted: Result<u64, AppError>,
)
    requires
        !lists_some(listing),
    ensures
        tick(threshold, listing, posted).0 == 0,
        tick(threshold, listing, posted).1 matches AttemptOutcome::Continue(Some(e)) && (
        match listing {
            Err(r) => e == SoftError::Read(r),
            Ok(_) => e == SoftError::EmptyListing,
        }),
        poll_transition(PollState::Running, tick(threshold, listing, posted).1).0
            == PollState::Running,
{
}

/// Any number of ticks that each see the threshold beyond the next number
/// leave the loop running and make no creation request.
pub proof fn lemma_waiting_ticks_make_no_request(
    threshold: u64,
    ticks: Seq<(Result<Vec<u64>, AppError>, Result<u64, AppError>)>,
)
    requires
        forall|i: int|
            0 <= i < ticks.len() ==> lists_some(#[trigger] ticks[i].0) && threshold
                > next_number(latest_of(ticks[i].0)),
    ensures
        poll_run(threshold, PollState::Running, ticks) == (PollState::Running, 0nat),
    decreases ticks.len(),
{
    if ticks.len() > 0 {
        let rest = ticks.drop_first();
        assert forall|i: int| 0 <= i < rest.len() implies lists_some(#[trigger] rest[i].0)
            && threshold > next_number(latest_of(rest[i].0)) by {
            assert(rest[i] == ticks[i + 1]);
        }
        lemma_waiting_ticks_make_no_request(threshold, rest);
        assert(lists_some(ticks[0].0));
    }
}

} // verus!
