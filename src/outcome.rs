use vstd::prelude::*;

verus! {

/// Where the threshold stands relative to the number the tracker will hand out next.
#[derive(Clone, Copy, Debug, PartialEq, Eq, Structural)]
pub enum Verdict {
    /// The threshold lies further ahead: keep polling.
    Wait,
    /// The next issue created will carry the threshold: submit now.
    Submit,
    /// The threshold was handed out already.
    Missed,
}

/// The number the tracker assigns to the next issue, given the latest one.
pub open spec fn next_number(latest: u64) -> int {
    latest as int + 1
}

pub open spec fn verdict_of(threshold: u64, latest: u64) -> Verdict {
    if (threshold as int) < next_number(latest) {
        Verdict::Missed
    } else if threshold as int == next_number(latest) {
        Verdict::Submit
    } else {
        Verdict::Wait
    }
}

/// Compares the threshold with the number of the next issue, `latest + 1`,
/// without overflowing when `latest` is the largest `u64`.
pub fn compare_to_next(threshold: u64, latest: u64) -> (v: Verdict)
    ensures
        v == verdict_of(threshold, latest),
{
    if threshold <= latest {
        Verdict::Missed
    } else if threshold - 1 == latest {
        Verdict::Submit
    } else {
        Verdict::Wait
    }
}

/// The payload that a response body was expected to hold.
#[derive(Clone, Copy, Debug, PartialEq, Eq, Structural)]
pub enum Payload {
    /// The listing of the most recent issues.
    IssueList,
    /// The issue that a creation request made.
    CreatedIssue,
    /// The tracker's own error message, sent with a failure status.
    RemoteError,
}

/// Why one request to the tracker gave no usable answer.
#[derive(Clone, Debug)]
pub enum AppError {
    /// The request did not complete: connection, TLS, timeout.
    Transport(String),
    /// The body did not hold the expected payload.
    Decode { expected: Payload, cause: String },
    /// The tracker refused the request and said why.
    Remote(String),
    /// The content of a new issue could not be read.
    Io(String),
}

/// A problem met while only reading: the poll loop carries on.
#[derive(Clone, Debug)]
pub enum SoftError {
    /// Reading the latest issue failed.
    Read(AppError),
    /// The tracker listed no issue at all.
    EmptyListing,
}

/// Why an attempt ended without creating the issue with the threshold's number.
#[derive(Clone, Debug)]
pub enum Failure {
    /// The threshold was at most the latest issue's number when it was read.
    WindowMissed { latest: u64 },
    /// The creation request failed, so whether an issue was made is unknown.
    SubmitFailed(AppError),
    /// An issue was created, but another one took the threshold first.
    RaceLost { posted: u64 },
}

/// The result of one tick.
#[derive(Debug)]
pub enum AttemptOutcome {
    /// Keep polling; a soft error is reported when there is one.
    Continue(Option<SoftError>),
    /// Stop polling: `Ok` when the created issue carries the threshold.
    Terminate(Result<(), Failure>),
}

} // verus!
