use issue_racer::attempt::{
    after_listing, after_submission, Attempt, AttemptAction, AttemptEvent, Phase,
};
use issue_racer::outcome::{compare_to_next, AppError, AttemptOutcome, Failure, SoftError, Verdict};
use issue_racer::poll::{on_outcome, Notice, PollState};

/// Runs one tick against canned answers; returns the outcome and the number
/// of creation requests made.
fn run_tick(threshold: u64, listing: Result<Vec<u64>, AppError>, posted: Result<u64, AppError>) -> (AttemptOutcome, u32) {
    let (mut attempt, mut action) = Attempt::new(threshold);
    let mut listing = Some(listing);
    let mut posted = Some(posted);
    let mut writes: u32 = 0;
    loop {
        match action {
            AttemptAction::FetchLatest => {
                let event = AttemptEvent::Listed(listing.take().expect("listing read twice"));
                assert!(attempt.accepts(&event));
                action = attempt.step(event);
            }
            AttemptAction::Submit => {
                writes += 1;
                let event = AttemptEvent::Posted(posted.take().expect("submitted twice"));
                assert!(attempt.accepts(&event));
                action = attempt.step(event);
            }
            AttemptAction::Finish(outcome) => {
                assert_eq!(attempt.phase(), Phase::Finished);
                return (outcome, writes);
            }
        }
    }
}

#[test]
fn scenario_wait_latest_41_threshold_43() {
    let (outcome, writes) = run_tick(43, Ok(vec![41]), Ok(43));
    assert!(matches!(outcome, AttemptOutcome::Continue(None)));
    assert_eq!(writes, 0);
}

#[test]
fn scenario_win_latest_41_threshold_42() {
    let (outcome, writes) = run_tick(42, Ok(vec![41]), Ok(42));
    assert!(matches!(outcome, AttemptOutcome::Terminate(Ok(()))));
    assert_eq!(writes, 1);
}

#[test]
fn scenario_race_lost_latest_41_threshold_42_posted_43() {
    let (outcome, writes) = run_tick(42, Ok(vec![41]), Ok(43));
    assert!(matches!(outcome, AttemptOutcome::Terminate(Err(Failure::RaceLost { posted: 43 }))));
    assert_eq!(writes, 1);
}

#[test]
fn scenario_missed_latest_50_threshold_42() {
    let (outcome, writes) = run_tick(42, Ok(vec![50]), Ok(42));
    assert!(matches!(outcome, AttemptOutcome::Terminate(Err(Failure::WindowMissed { latest: 50 }))));
    assert_eq!(writes, 0);
}

#[test]
fn scenario_empty_listing_is_soft_and_loop_continues() {
    let (outcome, writes) = run_tick(42, Ok(vec![]), Ok(42));
    assert!(matches!(outcome, AttemptOutcome::Continue(Some(SoftError::EmptyListing))));
    assert_eq!(writes, 0);
    let (state, notice) = on_outcome(PollState::Running, outcome);
    assert_eq!(state, PollState::Running);
    assert!(matches!(notice, Notice::SoftError(SoftError::EmptyListing)));
}

#[test]
fn threshold_just_past_next_waits() {
    let (outcome, writes) = run_tick(100, Ok(vec![98]), Ok(99));
    assert!(matches!(outcome, AttemptOutcome::Continue(None)));
    assert_eq!(writes, 0);
}

#[test]
fn threshold_equal_to_latest_is_missed() {
    let (outcome, writes) = run_tick(41, Ok(vec![41]), Ok(42));
    assert!(matches!(outcome, AttemptOutcome::Terminate(Err(Failure::WindowMissed { latest: 41 }))));
    assert_eq!(writes, 0);
}

#[test]
fn only_the_first_listed_issue_counts() {
    let (outcome, writes) = run_tick(42, Ok(vec![41, 60]), Ok(42));
    assert!(matches!(outcome, AttemptOutcome::Terminate(Ok(()))));
    assert_eq!(writes, 1);
}

#[test]
fn latest_at_largest_number_is_missed_without_overflow() {
    assert_eq!(compare_to_next(u64::MAX, u64::MAX), Verdict::Missed);
    let (outcome, writes) = run_tick(u64::MAX, Ok(vec![u64::MAX]), Ok(0));
    assert!(matches!(outcome, AttemptOutcome::Terminate(Err(Failure::WindowMissed { latest: u64::MAX }))));
    assert_eq!(writes, 0);
}

#[test]
fn largest_threshold_is_submitted_after_its_predecessor() {
    assert_eq!(compare_to_next(u64::MAX, u64::MAX - 1), Verdict::Submit);
    assert_eq!(compare_to_next(u64::MAX, u64::MAX - 2), Verdict::Wait);
    assert_eq!(compare_to_next(0, 0), Verdict::Missed);
}

#[test]
fn transport_failure_on_read_is_soft() {
    let (outcome, writes) = run_tick(42, Err(AppError::Transport("connection reset".to_string())), Ok(42));
    match outcome {
        AttemptOutcome::Continue(Some(SoftError::Read(AppError::Transport(m)))) => assert_eq!(m, "connection reset"),
        other => panic!("unexpected outcome {other:?}"),
    }
    assert_eq!(writes, 0);
}

#[test]
fn remote_error_on_read_is_soft() {
    let action = after_listing(42, Err(AppError::Remote("API rate limit exceeded".to_string())));
    match action {
        AttemptAction::Finish(AttemptOutcome::Continue(Some(SoftError::Read(AppError::Remote(m))))) => {
            assert_eq!(m, "API rate limit exceeded")
        }
        other => panic!("unexpected action {other:?}"),
    }
}

#[test]
fn failed_submission_terminates() {
    let (outcome, writes) = run_tick(42, Ok(vec![41]), Err(AppError::Io("issue.md missing".to_string())));
    match outcome {
        AttemptOutcome::Terminate(Err(Failure::SubmitFailed(AppError::Io(m)))) => assert_eq!(m, "issue.md missing"),
        other => panic!("unexpected outcome {other:?}"),
    }
    assert_eq!(writes, 1);
}

#[test]
fn rejected_submission_terminates() {
    let outcome = after_submission(42, Err(AppError::Remote("Bad credentials".to_string())));
    assert!(matches!(outcome, AttemptOutcome::Terminate(Err(Failure::SubmitFailed(AppError::Remote(_))))));
}

#[test]
fn posted_number_below_threshold_is_a_failure() {
    let outcome = after_submission(42, Ok(41));
    assert!(matches!(outcome, AttemptOutcome::Terminate(Err(Failure::RaceLost { posted: 41 }))));
}

#[test]
fn attempt_keeps_threshold_and_phases() {
    let (mut attempt, action) = Attempt::new(7);
    assert!(matches!(action, AttemptAction::FetchLatest));
    assert_eq!(attempt.threshold(), 7);
    assert_eq!(attempt.phase(), Phase::Listing);
    assert!(!attempt.accepts(&AttemptEvent::Posted(Ok(7))));
    let action = attempt.step(AttemptEvent::Listed(Ok(vec![6])));
    assert!(matches!(action, AttemptAction::Submit));
    assert_eq!(attempt.phase(), Phase::Submitting);
    assert_eq!(attempt.threshold(), 7);
    assert!(!attempt.accepts(&AttemptEvent::Listed(Ok(vec![6]))));
    assert!(attempt.accepts(&AttemptEvent::Posted(Ok(7))));
}

#[test]
fn repeated_waiting_ticks_never_submit() {
    let mut state = PollState::Running;
    let mut total_writes: u32 = 0;
    for latest in [10u64, 11, 11, 12, 13, 20, 30, 40] {
        let (outcome, writes) = run_tick(42, Ok(vec![latest]), Ok(42));
        total_writes += writes;
        let (next, notice) = on_outcome(state, outcome);
        assert!(matches!(notice, Notice::Quiet));
        state = next;
    }
    assert_eq!(total_writes, 0);
    assert_eq!(state, PollState::Running);
    assert!(!state.is_terminal());
}
