//! Decision logic of a poller that races to create the issue carrying a
//! chosen number on a remote tracker.
//!
//! The library never talks to the network. Each tick of the poll loop runs an
//! [`attempt::Attempt`]: the caller performs the action it asks for (read the
//! latest issue, submit a new one), hands the answer back as an event, and
//! receives the next action, until the attempt finishes with an
//! [`outcome::AttemptOutcome`]. [`poll::on_outcome`] then decides whether the
//! loop keeps going.
use vstd::prelude::*;

pub mod attempt;
pub mod laws;
pub mod outcome;
pub mod poll;
pub mod response;

verus! {

} // verus!
