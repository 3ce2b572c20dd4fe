use dice_quiz::glyphs::{get_dice_from_number, DICE};
use dice_quiz::geometry::Point;
use dice_quiz::round::{generate_round, render_plan};

#[test]
fn faces_for_valid_numbers() {
    assert_eq!(get_dice_from_number(1), Some(DICE::ONE));
    assert_eq!(get_dice_from_number(2), Some(DICE::TWO));
    assert_eq!(get_dice_from_number(3), Some(DICE::THREE));
    assert_eq!(get_dice_from_number(4), Some(DICE::FOUR));
    assert_eq!(get_dice_from_number(5), Some(DICE::FIVE));
    assert_eq!(get_dice_from_number(6), Some(DICE::SIX));
}

#[test]
fn no_face_outside_one_to_six() {
    assert_eq!(get_dice_from_number(0), None);
    assert_eq!(get_dice_from_number(7), None);
    assert_eq!(get_dice_from_number(255), None);
}

#[test]
fn face_values() {
    assert_eq!(DICE::ONE.face_value(), 1);
    assert_eq!(DICE::SIX.face_value(), 6);
}

#[test]
fn glyph_art_of_one() {
    let lines = DICE::ONE.lines_for(false);
    assert_eq!(
        lines,
        ["+-------+", "|       |", "|   O   |", "|       |", "+-------+"]
    );
}

#[test]
fn mirrored_variant_differs_only_where_it_exists() {
    assert_ne!(DICE::TWO.lines_for(false), DICE::TWO.lines_for(true));
    assert_ne!(DICE::THREE.lines_for(false), DICE::THREE.lines_for(true));
    assert_ne!(DICE::SIX.lines_for(false), DICE::SIX.lines_for(true));
    assert_eq!(DICE::ONE.lines_for(false), DICE::ONE.lines_for(true));
    assert_eq!(DICE::FOUR.lines_for(false), DICE::FOUR.lines_for(true));
    assert_eq!(DICE::FIVE.lines_for(false), DICE::FIVE.lines_for(true));
}

#[test]
fn random_lines_are_one_of_the_two_variants() {
    for _ in 0..20 {
        let lines = DICE::THREE.get_lines();
        assert!(lines == DICE::THREE.lines_for(false) || lines == DICE::THREE.lines_for(true));
        for line in lines {
            assert_eq!(line.len(), 9);
        }
    }
}

#[test]
fn generated_rounds_are_well_formed() {
    for _ in 0..15 {
        let round = generate_round().expect("generation never fails on the fixed canvas");
        let n: usize = round.dice.len();
        assert!((2..=6).contains(&n));
        let mut sum: u32 = 0;
        for die in &round.dice {
            sum += die.face.face_value() as u32;
            assert!(1 <= die.pos.0 && die.pos.0 <= 79 - 1 - 9);
            assert!(1 <= die.pos.1 && die.pos.1 <= 21 - 1 - 5);
        }
        assert_eq!(round.expected_answer, sum);
        for (i, a) in round.dice.iter().enumerate() {
            for (j, b) in round.dice.iter().enumerate() {
                if i != j {
                    let dx = (a.pos.0 as i32 - b.pos.0 as i32).abs();
                    let dy = (a.pos.1 as i32 - b.pos.1 as i32).abs();
                    assert!(dx >= 9 || dy >= 5, "dice overlap exclusion violated");
                }
            }
        }
    }
}

#[test]
fn render_plan_stacks_rows_downward() {
    let lines = DICE::FIVE.lines_for(false);
    let plan = render_plan(Point(3, 4), &lines);
    assert_eq!(plan.len(), 5);
    for (i, (x, y, text)) in plan.iter().enumerate() {
        assert_eq!(*x, 3);
        assert_eq!(*y, 4 + i as u16);
        assert_eq!(*text, lines[i]);
    }
}
