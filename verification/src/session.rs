//! The round loop's decisions: accepting the start signal, judging an
//! answer, tallying the session and computing the final score.

use vstd::prelude::*;

use crate::parse::{parse_answer, parses_to_u32, parsed_u32};
use crate::timed_input::InputOutcome;
use crate::{PENALTY, QUIZ_TIME, REWARD};

verus! {

/// How one round was resolved.
#[derive(PartialEq, Eq, Structural, Clone, Copy, Debug)]
pub enum RoundResult {
    /// The answer parsed as a number and matched the expected sum.
    Correct,
    /// The answer was wrong or did not parse as a number.
    Incorrect,
    /// No answer arrived in time; not penalized.
    TimedOut,
}

/// The running tallies of one quiz session.
#[derive(PartialEq, Eq, Structural, Clone, Copy, Debug)]
pub struct Session {
    pub correct_count: u16,
    pub incorrect_count: u16,
}

impl Session {
    /// A fresh session with empty tallies.
    pub fn new() -> (s: Session)
        ensures
            s.correct_count == 0,
            s.incorrect_count == 0,
    {
        Session { correct_count: 0, incorrect_count: 0 }
    }

    /// Tally one round: a correct answer raises the correct count, a wrong
    /// one the incorrect count, and a timeout is not penalized.
    pub fn record(&mut self, result: RoundResult)
        requires
            old(self).correct_count < u16::MAX,
            old(self).incorrect_count < u16::MAX,
        ensures
            final(self).correct_count as int == old(self).correct_count as int + (
            if result is Correct {
                1int
            } else {
                0int
            }),
            final(self).incorrect_count as int == old(self).incorrect_count as int + (
            if result is Incorrect {
                1int
            } else {
                0int
            }),
    {
        match result {
            RoundResult::Correct => {
                self.correct_count = self.correct_count + 1;
            },
            RoundResult::Incorrect => {
                self.incorrect_count = self.incorrect_count + 1;
            },
            RoundResult::TimedOut => {},
        }
    }

    /// The final score: the reward for each correct answer minus the
    /// penalty for each incorrect one.  Signed, and may be negative.
    pub fn final_score(&self) -> (r: i32)
        ensures
            r as int == self.correct_count as int * (REWARD as int) - self.incorrect_count as int
                * (PENALTY as int),
    {
        (self.correct_count as i32) * (REWARD as i32) - (self.incorrect_count as i32) * (
        PENALTY as i32)
    }
}

/// Judge one resolved input against the expected sum.  Text that does not
/// parse as a number counts as incorrect, exactly like a wrong number; a
/// timeout is its own result.
pub fn classify_answer(outcome: &InputOutcome, expected: u32) -> (r: RoundResult)
    ensures
        match outcome {
            InputOutcome::Answer(text) => if parses_to_u32(text@) && parsed_u32(text@)
                == expected as int {
                r is Correct
            } else {
                r is Incorrect
            },
            InputOutcome::TimedOut => r is TimedOut,
        },
{
    match outcome {
        InputOutcome::TimedOut => RoundResult::TimedOut,
        InputOutcome::Answer(text) => {
            match parse_answer(text) {
                Some(v) => if v == expected {
                    RoundResult::Correct
                } else {
                    RoundResult::Incorrect
                },
                None => RoundResult::Incorrect,
            }
        },
    }
}

/// The session keeps running while the elapsed time is below the quiz
/// duration.
pub fn session_continues(elapsed_secs: u64) -> (r: bool)
    ensures
        r == (elapsed_secs < QUIZ_TIME),
{
    elapsed_secs < QUIZ_TIME
}

/// The start gate: any line terminated by a newline confirms the start.
#[verifier::loop_isolation(false)]
pub fn accept_start(line: &Vec<u8>) -> (r: bool)
    ensures
        r == line@.contains(10u8),
{
    let mut i: usize = 0;
    while i < line.len()
        invariant
            i <= line@.len(),
            forall|j: int| 0 <= j < i ==> line@[j] != 10u8,
        decreases line@.len() - i,
    {
        if line[i] == 10 {
            proof {
                assert(line@.contains(10u8)) by {
                    assert(line@[i as int] == 10u8);
                }
            }
            return true;
        }
        i += 1;
    }
    false
}

} // verus!
