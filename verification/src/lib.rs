//! A terminal dice-sum quiz library.
//!
//! The core is a non-overlapping random placement engine that lays out
//! fixed-size die sprites on a bounded text canvas.  Around it stand the
//! round generator, the glyph catalog, the timed-input resolution rule and
//! the scorer.  Terminal drawing and the blocking stdin read live outside
//! this library; everything here is pure logic with contracts.

use vstd::prelude::*;

pub mod geometry;
pub mod glyphs;
pub mod parse;
pub mod placement;
mod random;
pub mod round;
pub mod session;
pub mod timed_input;

verus! {

/// Width of the text canvas, in cells.
pub const CANVAS_WIDTH: u16 = 79;

/// Height of the text canvas, in cells.
pub const CANVAS_HEIGHT: u16 = 21;

/// Width of one die sprite, border included.
pub const DIE_WIDTH: u16 = 9;

/// Height of one die sprite, border included.
pub const DIE_HEIGHT: u16 = 5;

/// Length of a whole quiz session, in seconds.
pub const QUIZ_TIME: u64 = 30;

/// Points gained for a correct answer.
pub const REWARD: u16 = 4;

/// Points lost for an incorrect answer.
pub const PENALTY: u16 = 1;

/// Seconds to pause after a wrong answer so the player can read the
/// correction before the next round is drawn.
pub const WRONG_ANSWER_PAUSE: u64 = 2;

} // verus!
