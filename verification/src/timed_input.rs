//! The timed-input resolution rule.
//!
//! A worker performs the blocking line read and hands its result over a
//! one-shot channel; that plumbing lives outside this library.  What is
//! decided here is the race itself: text that arrives strictly before the
//! deadline is the answer, anything else is a timeout.

use vstd::prelude::*;

verus! {

/// What one round's input request resolves to.
#[derive(PartialEq, Eq, Clone, Debug)]
pub enum InputOutcome {
    /// The line the player entered, as raw bytes.
    Answer(Vec<u8>),
    /// No line arrived before the deadline.
    TimedOut,
}

/// Resolve one round's input race.  `arrival` is the line handed over by
/// the reading worker, if any, tagged with the second it arrived at;
/// `deadline` is the second the session expires at.  The submitted text is
/// returned exactly when it arrived strictly before the deadline.
pub fn resolve_timed_input(arrival: Option<(u64, Vec<u8>)>, deadline: u64) -> (r: InputOutcome)
    ensures
        match arrival {
            Some(a) => if a.0 < deadline {
                r matches InputOutcome::Answer(text) && text@ == a.1@
            } else {
                r is TimedOut
            },
            None => r is TimedOut,
        },
{
    match arrival {
        Some((at, text)) => if at < deadline {
            InputOutcome::Answer(text)
        } else {
            InputOutcome::TimedOut
        },
        None => InputOutcome::TimedOut,
    }
}

} // verus!
