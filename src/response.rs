use vstd::prelude::*;

use crate::outcome::{AppError, Payload};

verus! {

/// What one request brought back, as plain values.
pub enum Reply<T> {
    /// The request did not complete; the transport's message.
    Unreachable(String),
    /// A success status; the body decoded as the expected payload, or the
    /// decoder's message.
    Accepted(Result<T, String>),
    /// A failure status; the body decoded as the tracker's error message, or
    /// the decoder's message.
    Rejected(Result<String, String>),
}

pub open spec fn classified<T>(reply: Reply<T>, expected: Payload) -> Result<T, AppError> {
    match reply {
        Reply::Unreachable(m) => Err(AppError::Transport(m)),
        Reply::Accepted(Ok(v)) => Ok(v),
        Reply::Accepted(Err(c)) => Err(AppError::Decode { expected, cause: c }),
        Reply::Rejected(Ok(m)) => Err(AppError::Remote(m)),
        Reply::Rejected(Err(c)) => Err(AppError::Decode { expected: Payload::RemoteError, cause: c }),
    }
}

/// Turns a reply into its payload, or into the error that explains why there
/// is none. `expected` names the payload, for the message of a decode error.
pub fn classify<T>(reply: Reply<T>, expected: Payload) -> (r: Result<T, AppError>)
    ensures
        r == classified(reply, expected),
{
    match reply {
        Reply::Unreachable(m) => Err(AppError::Transport(m)),
        Reply::Accepted(Ok(v)) => Ok(v),
        Reply::Accepted(Err(c)) => Err(AppError::Decode { expected, cause: c }),
        Reply::Rejected(Ok(m)) => Err(AppError::Remote(m)),
        Reply::Rejected(Err(c)) => Err(AppError::Decode { expected: Payload::RemoteError, cause: c }),
    }
}

} // verus!
