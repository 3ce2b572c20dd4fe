use dice_quiz::parse::parse_answer;
use dice_quiz::session::{accept_start, classify_answer, session_continues, RoundResult, Session};
use dice_quiz::timed_input::{resolve_timed_input, InputOutcome};

#[test]
fn timed_input_times_out_with_no_arrival() {
    assert_eq!(resolve_timed_input(None, 0), InputOutcome::TimedOut);
    assert_eq!(resolve_timed_input(None, 30), InputOutcome::TimedOut);
}

#[test]
fn timed_input_returns_text_arriving_before_deadline() {
    let r = resolve_timed_input(Some((1, b"17\n".to_vec())), 5);
    assert_eq!(r, InputOutcome::Answer(b"17\n".to_vec()));
}

#[test]
fn timed_input_requires_strictly_early_arrival() {
    assert_eq!(
        resolve_timed_input(Some((5, b"17\n".to_vec())), 5),
        InputOutcome::TimedOut
    );
    assert_eq!(
        resolve_timed_input(Some((9, b"17\n".to_vec())), 5),
        InputOutcome::TimedOut
    );
}

#[test]
fn parse_plain_numbers() {
    assert_eq!(parse_answer(&b"42".to_vec()), Some(42));
    assert_eq!(parse_answer(&b"42\n".to_vec()), Some(42));
    assert_eq!(parse_answer(&b" 12 \r\n".to_vec()), Some(12));
    assert_eq!(parse_answer(&b"+7".to_vec()), Some(7));
    assert_eq!(parse_answer(&b"007".to_vec()), Some(7));
    assert_eq!(parse_answer(&b"0".to_vec()), Some(0));
}

#[test]
fn parse_limits() {
    assert_eq!(parse_answer(&b"4294967295".to_vec()), Some(u32::MAX));
    assert_eq!(parse_answer(&b"4294967296".to_vec()), None);
    assert_eq!(parse_answer(&b"99999999999999999999".to_vec()), None);
}

#[test]
fn parse_rejects_non_numbers() {
    assert_eq!(parse_answer(&b"".to_vec()), None);
    assert_eq!(parse_answer(&b"   \n".to_vec()), None);
    assert_eq!(parse_answer(&b"+".to_vec()), None);
    assert_eq!(parse_answer(&b"abc".to_vec()), None);
    assert_eq!(parse_answer(&b"1 2".to_vec()), None);
    assert_eq!(parse_answer(&b"-3".to_vec()), None);
    assert_eq!(parse_answer(&b"12a".to_vec()), None);
}

#[test]
fn classification_of_answers() {
    let right = InputOutcome::Answer(b"12\n".to_vec());
    let wrong = InputOutcome::Answer(b"13\n".to_vec());
    let noise = InputOutcome::Answer(b"twelve\n".to_vec());
    assert_eq!(classify_answer(&right, 12), RoundResult::Correct);
    assert_eq!(classify_answer(&wrong, 12), RoundResult::Incorrect);
    assert_eq!(classify_answer(&noise, 12), RoundResult::Incorrect);
    assert_eq!(classify_answer(&InputOutcome::TimedOut, 12), RoundResult::TimedOut);
}

#[test]
fn literal_timeout_text_is_just_a_wrong_answer() {
    let sentinel = InputOutcome::Answer(b"Timeout\n".to_vec());
    assert_eq!(classify_answer(&sentinel, 12), RoundResult::Incorrect);
}

#[test]
fn session_tallies() {
    let mut s = Session::new();
    assert_eq!(s.correct_count, 0);
    assert_eq!(s.incorrect_count, 0);
    s.record(RoundResult::Correct);
    s.record(RoundResult::Correct);
    s.record(RoundResult::Incorrect);
    s.record(RoundResult::TimedOut);
    assert_eq!(s.correct_count, 2);
    assert_eq!(s.incorrect_count, 1);
}

#[test]
fn score_three_right_two_wrong_is_ten() {
    let s = Session { correct_count: 3, incorrect_count: 2 };
    assert_eq!(s.final_score(), 3 * 4 - 2 * 1);
    assert_eq!(s.final_score(), 10);
}

#[test]
fn score_may_be_negative() {
    let s = Session { correct_count: 0, incorrect_count: 5 };
    assert_eq!(s.final_score(), -5);
}

#[test]
fn session_runs_until_the_deadline() {
    assert!(session_continues(0));
    assert!(session_continues(29));
    assert!(!session_continues(30));
    assert!(!session_continues(31));
}

#[test]
fn start_needs_a_newline_terminated_line() {
    assert!(accept_start(&b"\n".to_vec()));
    assert!(accept_start(&b"go\n".to_vec()));
    assert!(!accept_start(&b"".to_vec()));
    assert!(!accept_start(&b"go".to_vec()));
}
