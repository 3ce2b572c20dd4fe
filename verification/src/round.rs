//! The round generator: rolls a random die count and random faces, lays
//! them out through the placement engine, and computes the expected sum.
//! Also the render plan that places each sprite row on the canvas.

use vstd::prelude::*;

use crate::geometry::Point;
use crate::glyphs::DICE;
use crate::placement::{
    lemma_standard_layout_fits, place, valid_layout, PlacementError,
};
use crate::random::rand_between;
use crate::{CANVAS_HEIGHT, CANVAS_WIDTH, DIE_HEIGHT, DIE_WIDTH};

verus! {

/// One die of a round: a face and the anchor its sprite is drawn at.
#[derive(PartialEq, Eq, Structural, Clone, Copy, Debug)]
pub struct Die {
    pub face: DICE,
    pub pos: Point,
}

/// One quiz round: the dice shown and the sum the player must enter.
pub struct Round {
    pub dice: Vec<Die>,
    pub expected_answer: u32,
}

/// The sum of the face values of a sequence of dice.
pub open spec fn face_sum(s: Seq<Die>) -> int
    decreases s.len(),
{
    if s.len() == 0 {
        0
    } else {
        face_sum(s.drop_last()) + s.last().face.value()
    }
}

/// The anchors of a sequence of dice.
pub open spec fn positions(s: Seq<Die>) -> Seq<Point> {
    s.map_values(|d: Die| d.pos)
}

/// A well-formed round: two to six dice, laid out without collision on
/// the standard canvas, with the expected answer equal to the sum of the
/// faces.
pub open spec fn round_wf(r: Round) -> bool {
    &&& 2 <= r.dice@.len() <= 6
    &&& valid_layout(
        positions(r.dice@),
        CANVAS_WIDTH as int,
        CANVAS_HEIGHT as int,
        DIE_WIDTH as int,
        DIE_HEIGHT as int,
    )
    &&& r.expected_answer as int == face_sum(r.dice@)
}

/// Generate one round: a uniform die count in two through six, a uniform
/// face value in one through six per die, and a non-overlapping layout.
///
/// On the fixed canvas the placement engine can never run out of space
/// for six dice, so generation always succeeds; the error is surfaced
/// rather than silently truncated only because the placement engine's
/// failure is a named condition.
#[verifier::loop_isolation(false)]
pub fn generate_round() -> (r: Result<Round, PlacementError>)
    ensures
        r is Ok,
        r matches Ok(rd) ==> round_wf(rd),
{
    let count: u8 = rand_between(2, 6);
    proof {
        lemma_standard_layout_fits(count as int);
    }
    let pts = match place(CANVAS_WIDTH, CANVAS_HEIGHT, DIE_WIDTH, DIE_HEIGHT, count as usize) {
        Ok(pts) => pts,
        Err(_) => {
            proof {
                assert(false);
            }
            return Err(PlacementError::InsufficientSpace);
        },
    };
    let mut dice: Vec<Die> = Vec::new();
    let mut sum: u32 = 0;
    let mut i: usize = 0;
    while i < count as usize
        invariant
            i <= count as usize,
            dice@.len() == i,
            sum as int == face_sum(dice@),
            sum <= 6 * i,
            forall|j: int| 0 <= j < i ==> (#[trigger] dice@[j]).pos == pts@[j],
        decreases count as usize - i,
    {
        let value: u8 = rand_between(1, 6);
        let face = match crate::glyphs::get_dice_from_number(value) {
            Some(face) => face,
            None => {
                proof {
                    assert(false);
                }
                return Err(PlacementError::InsufficientSpace);
            },
        };
        let ghost before = dice@;
        dice.push(Die { face, pos: pts[i] });
        proof {
            assert(dice@.drop_last() =~= before);
        }
        sum = sum + value as u32;
        i += 1;
    }
    proof {
        assert(positions(dice@) =~= pts@);
    }
    Ok(Round { dice, expected_answer: sum })
}

/// Where each row of a sprite goes: row `i` of `lines` is written at
/// column `pos.0`, row `pos.1 + i` of the terminal.
#[verifier::loop_isolation(false)]
pub fn render_plan(pos: Point, lines: &[&'static str; 5]) -> (r: Vec<(u16, u16, &'static str)>)
    requires
        pos.1 as int + 5 <= u16::MAX as int,
    ensures
        r@.len() == 5,
        forall|i: int|
            0 <= i < 5 ==> (#[trigger] r@[i]).0 == pos.0 && r@[i].1 as int == pos.1 as int + i
                && r@[i].2 == lines@[i],
{
    let mut r: Vec<(u16, u16, &'static str)> = Vec::new();
    let mut i: usize = 0;
    while i < 5
        invariant
            i <= 5,
            r@.len() == i,
            forall|j: int|
                0 <= j < i ==> (#[trigger] r@[j]).0 == pos.0 && r@[j].1 as int == pos.1 as int + j
                    && r@[j].2 == lines@[j],
        decreases 5 - i,
    {
        r.push((pos.0, pos.1 + (i as u16), lines[i]));
        i += 1;
    }
    r
}

} // verus!
