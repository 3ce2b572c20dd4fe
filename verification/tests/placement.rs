use dice_quiz::geometry::Point;
use dice_quiz::placement::{filter_invalid_points, place, PlacementError};

fn excluded(p: Point, q: Point, fw: u16, fh: u16) -> bool {
    let dx = (p.0 as i32 - q.0 as i32).abs();
    let dy = (p.1 as i32 - q.1 as i32).abs();
    dx < fw as i32 && dy < fh as i32
}

fn assert_valid_layout(pts: &[Point], cw: u16, ch: u16, fw: u16, fh: u16) {
    for p in pts {
        assert!(1 <= p.0 && p.0 <= cw - 1 - fw, "x out of bounds: {:?}", p.0);
        assert!(1 <= p.1 && p.1 <= ch - 1 - fh, "y out of bounds: {:?}", p.1);
    }
    for (i, p) in pts.iter().enumerate() {
        for (j, q) in pts.iter().enumerate() {
            if i != j {
                assert!(
                    !excluded(*p, *q, fw, fh),
                    "exclusion violated: ({}, {}) vs ({}, {})",
                    p.0,
                    p.1,
                    q.0,
                    q.1
                );
            }
        }
    }
}

#[test]
fn place_standard_six() {
    let pts = place(79, 21, 9, 5, 6).expect("six dice must fit on the standard canvas");
    assert_eq!(pts.len(), 6);
    assert_valid_layout(&pts, 79, 21, 9, 5);
}

#[test]
fn place_repeated_calls_stay_valid() {
    for _ in 0..25 {
        let pts = place(79, 21, 9, 5, 6).expect("standard configuration never fails");
        assert_eq!(pts.len(), 6);
        assert_valid_layout(&pts, 79, 21, 9, 5);
    }
}

#[test]
fn place_count_zero() {
    let pts = place(79, 21, 9, 5, 0).unwrap();
    assert_eq!(pts.len(), 0);
}

#[test]
fn place_single_candidate() {
    // An 11 x 7 canvas leaves exactly one legal anchor for a 9 x 5 sprite.
    let pts = place(11, 7, 9, 5, 1).unwrap();
    assert_eq!(pts.len(), 1);
    assert_eq!(pts[0], Point(1, 1));
}

#[test]
fn place_insufficient_space_on_shrunken_canvas() {
    // A 12 x 8 canvas has four anchors, all inside one another's
    // exclusion zone: a second die can never be placed.
    for _ in 0..10 {
        let r = place(12, 8, 9, 5, 2);
        assert_eq!(r.unwrap_err(), PlacementError::InsufficientSpace);
    }
}

#[test]
fn place_insufficient_space_when_sprite_too_big() {
    let r = place(5, 5, 9, 5, 1);
    assert_eq!(r.unwrap_err(), PlacementError::InsufficientSpace);
}

#[test]
fn filter_purges_exactly_the_exclusion_zone() {
    let mut pts = vec![
        Point(1, 1),
        Point(10, 6),
        Point(11, 2),
        Point(2, 7),
        Point(40, 10),
    ];
    filter_invalid_points(&mut pts, Point(2, 2), 9, 5);
    assert_eq!(pts, vec![Point(11, 2), Point(2, 7), Point(40, 10)]);
}
