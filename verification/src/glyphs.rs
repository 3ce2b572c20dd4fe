//! The glyph catalog: the ASCII-art faces of the six dice.
//!
//! Faces two, three and six have a mirrored variant; which one is drawn is
//! chosen at random on each render, for visual variety.

use vstd::prelude::*;

use crate::random::rand_coin;

verus! {

/// A die face.
#[derive(PartialEq, Eq, Structural, Clone, Copy, Debug)]
pub enum DICE {
    ONE,
    TWO,
    THREE,
    FOUR,
    FIVE,
    SIX,
}

impl DICE {
    /// The numeric value of the face.
    pub open spec fn value(self) -> int {
        match self {
            DICE::ONE => 1,
            DICE::TWO => 2,
            DICE::THREE => 3,
            DICE::FOUR => 4,
            DICE::FIVE => 5,
            DICE::SIX => 6,
        }
    }

    /// The numeric value of the face.
    pub fn face_value(&self) -> (r: u8)
        ensures
            r as int == self.value(),
    {
        match self {
            DICE::ONE => 1,
            DICE::TWO => 2,
            DICE::THREE => 3,
            DICE::FOUR => 4,
            DICE::FIVE => 5,
            DICE::SIX => 6,
        }
    }

    /// The five rows of the face's sprite.  `mirrored` selects the
    /// alternative art for the faces that have one; for the others it
    /// makes no difference.
    pub open spec fn rows(self, mirrored: bool) -> Seq<Seq<char>> {
        match self {
            DICE::ONE => seq!["+-------+"@, "|       |"@, "|   O   |"@, "|       |"@, "+-------+"@],
            DICE::TWO => if mirrored {
                seq!["+-------+"@, "|     O |"@, "|       |"@, "| O     |"@, "+-------+"@]
            } else {
                seq!["+-------+"@, "| O     |"@, "|       |"@, "|     O |"@, "+-------+"@]
            },
            DICE::THREE => if mirrored {
                seq!["+-------+"@, "|     O |"@, "|   O   |"@, "| O     |"@, "+-------+"@]
            } else {
                seq!["+-------+"@, "| O     |"@, "|   O   |"@, "|     O |"@, "+-------+"@]
            },
            DICE::FOUR => seq!["+-------+"@, "| O   O |"@, "|       |"@, "| O   O |"@, "+-------+"@],
            DICE::FIVE => seq!["+-------+"@, "| O   O |"@, "|   O   |"@, "| O   O |"@, "+-------+"@],
            DICE::SIX => if mirrored {
                seq!["+-------+"@, "| O   O |"@, "| O   O |"@, "| O   O |"@, "+-------+"@]
            } else {
                seq!["+-------+"@, "| O O O |"@, "|       |"@, "| O O O |"@, "+-------+"@]
            },
        }
    }

    /// The sprite rows of this face in the chosen variant.
    pub fn lines_for(&self, mirrored: bool) -> (r: [&'static str; 5])
        ensures
            forall|i: int| 0 <= i < 5 ==> (#[trigger] r@[i])@ == self.rows(mirrored)[i],
    {
        match self {
            DICE::ONE => ["+-------+", "|       |", "|   O   |", "|       |", "+-------+"],
            DICE::TWO => if mirrored {
                ["+-------+", "|     O |", "|       |", "| O     |", "+-------+"]
            } else {
                ["+-------+", "| O     |", "|       |", "|     O |", "+-------+"]
            },
            DICE::THREE => if mirrored {
                ["+-------+", "|     O |", "|   O   |", "| O     |", "+-------+"]
            } else {
                ["+-------+", "| O     |", "|   O   |", "|     O |", "+-------+"]
            },
            DICE::FOUR => ["+-------+", "| O   O |", "|       |", "| O   O |", "+-------+"],
            DICE::FIVE => ["+-------+", "| O   O |", "|   O   |", "| O   O |", "+-------+"],
            DICE::SIX => if mirrored {
                ["+-------+", "| O   O |", "| O   O |", "| O   O |", "+-------+"]
            } else {
                ["+-------+", "| O O O |", "|       |", "| O O O |", "+-------+"]
            },
        }
    }

    /// The sprite rows of this face, in a variant picked at random on
    /// each render for visual variety.
    pub fn get_lines(&self) -> (r: [&'static str; 5])
        ensures
            exists|m: bool| shows_rows(r@, #[trigger] self.rows(m)),
    {
        let mirrored = rand_coin();
        let r = self.lines_for(mirrored);
        proof {
            assert(shows_rows(r@, self.rows(mirrored)));
        }
        r
    }
}

/// The drawn lines spell out the given sprite rows.
pub open spec fn shows_rows(r: Seq<&'static str>, rows: Seq<Seq<char>>) -> bool {
    forall|i: int| 0 <= i < 5 ==> (#[trigger] r[i])@ == rows[i]
}

/// The face for a rolled value, defined exactly for one through six.
pub fn get_dice_from_number(num: u8) -> (r: Option<DICE>)
    ensures
        match r {
            Some(d) => 1 <= num <= 6 && d.value() == num as int,
            None => !(1 <= num <= 6),
        },
{
    match num {
        1 => Some(DICE::ONE),
        2 => Some(DICE::TWO),
        3 => Some(DICE::THREE),
        4 => Some(DICE::FOUR),
        5 => Some(DICE::FIVE),
        6 => Some(DICE::SIX),
        _ => None,
    }
}

} // verus!
