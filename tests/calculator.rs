use calculator::keypad::{keypad, COLUMNS, ROWS};
use calculator::{CalculatorState, Token};

fn state(buffer: &str, showing_result: bool) -> CalculatorState {
    CalculatorState { buffer: buffer.to_string(), showing_result }
}

fn after(buffer: &str, showing_result: bool, tokens: &[Token]) -> CalculatorState {
    let mut s = state(buffer, showing_result);
    for t in tokens {
        s.apply_token(*t);
    }
    s
}

const DIGITS: [(Token, char); 10] = [
    (Token::Digit0, '0'),
    (Token::Digit1, '1'),
    (Token::Digit2, '2'),
    (Token::Digit3, '3'),
    (Token::Digit4, '4'),
    (Token::Digit5, '5'),
    (Token::Digit6, '6'),
    (Token::Digit7, '7'),
    (Token::Digit8, '8'),
    (Token::Digit9, '9'),
];

#[test]
fn new_state_is_empty() {
    let s = CalculatorState::new();
    assert_eq!(s.buffer, "");
    assert!(!s.showing_result);
    let d = CalculatorState::default();
    assert_eq!(d.buffer, "");
    assert!(!d.showing_result);
}

#[test]
fn digit_appends_to_nonzero_buffer() {
    for buffer in ["1", "12", "3+", "00", "0.", "7*0"] {
        for (t, c) in DIGITS {
            let s = after(buffer, false, &[t]);
            assert_eq!(s.buffer, format!("{}{}", buffer, c));
            assert!(!s.showing_result);
        }
    }
}

#[test]
fn digit_zero_on_empty_and_single_zero() {
    assert_eq!(after("", false, &[Token::Digit0]).buffer, "0");
    assert_eq!(after("0", false, &[Token::Digit0]).buffer, "0");
    assert_eq!(after("", false, &[Token::Digit0, Token::Digit0, Token::Digit0]).buffer, "0");
    assert_eq!(after("0", false, &[Token::Digit5]).buffer, "05");
}

#[test]
fn backspace_removes_one_character() {
    assert_eq!(after("123", false, &[Token::Backspace]).buffer, "12");
    assert_eq!(after("7", false, &[Token::Backspace]).buffer, "");
    assert_eq!(after("", false, &[Token::Backspace]).buffer, "");
    assert_eq!(after("1+2", false, &[Token::Backspace, Token::Backspace]).buffer, "1");
}

#[test]
fn clear_empties_buffer() {
    for (buffer, showing) in [("", false), ("12+3", false), ("42", true), ("Error", true)] {
        let s = after(buffer, showing, &[Token::Clear]);
        assert_eq!(s.buffer, "");
        assert!(!s.showing_result);
    }
}

#[test]
fn clear_twice_is_clear_once() {
    for buffer in ["", "0", "9/3"] {
        assert_eq!(after(buffer, false, &[Token::Clear, Token::Clear]).buffer, "");
    }
}

#[test]
fn operators_append_their_symbols() {
    let s = after(
        "1",
        false,
        &[
            Token::Add,
            Token::Subtract,
            Token::Multiply,
            Token::Divide,
            Token::Percent,
            Token::DecimalSeparator,
        ],
    );
    assert_eq!(s.buffer, "1+-*/%.");
    assert!(!s.showing_result);
    assert_eq!(after("", false, &[Token::Add, Token::Add]).buffer, "++");
}

#[test]
fn result_is_cleared_before_next_token() {
    let s = after("42", true, &[Token::Digit5]);
    assert_eq!(s.buffer, "5");
    assert!(!s.showing_result);
    assert_eq!(after("42", true, &[Token::Add]).buffer, "+");
    assert_eq!(after("42", true, &[Token::Backspace]).buffer, "");
    assert_eq!(after("Error", true, &[Token::Digit0]).buffer, "0");
}

#[test]
fn equals_evaluates_sum() {
    let s = after("2+2", false, &[Token::Equals]);
    assert_eq!(s.buffer, "4");
    assert!(s.showing_result);
}

#[test]
fn equals_then_zero_starts_fresh() {
    let s = after("2+2", false, &[Token::Equals, Token::Digit0]);
    assert_eq!(s.buffer, "0");
    assert!(!s.showing_result);
}

#[test]
fn equals_on_malformed_buffer_shows_error() {
    let s = after("5+", false, &[Token::Equals]);
    assert_eq!(s.buffer, "Error");
    assert!(s.showing_result);
    assert_eq!(after("", false, &[Token::Equals]).buffer, "Error");
    assert_eq!(after(".", false, &[Token::Equals]).buffer, "Error");
}

#[test]
fn equals_computes_each_operator() {
    assert_eq!(after("2*3", false, &[Token::Equals]).buffer, "6");
    assert_eq!(after("7/2", false, &[Token::Equals]).buffer, "3.5");
    assert_eq!(after("10%3", false, &[Token::Equals]).buffer, "1");
    assert_eq!(after("1-4", false, &[Token::Equals]).buffer, "-3");
    assert_eq!(after("1+2*3", false, &[Token::Equals]).buffer, "7");
}

#[test]
fn keys_build_expression_and_evaluate() {
    let s = after(
        "",
        false,
        &[Token::Digit1, Token::Digit2, Token::Add, Token::Digit3, Token::Equals],
    );
    assert_eq!(s.buffer, "15");
    assert!(s.showing_result);
}

#[test]
fn equals_twice_evaluates_empty_buffer() {
    let s = after("2+2", false, &[Token::Equals, Token::Equals]);
    assert_eq!(s.buffer, "Error");
    assert!(s.showing_result);
}

#[test]
fn show_outcome_shows_text_or_error() {
    let mut s = state("1+1", false);
    s.show_outcome(Some("2".to_string()));
    assert_eq!(s.buffer, "2");
    assert!(s.showing_result);
    let mut e = state("1+", false);
    e.show_outcome(None);
    assert_eq!(e.buffer, "Error");
    assert!(e.showing_result);
}

#[test]
fn token_symbols_and_labels() {
    assert_eq!(Token::Divide.symbol(), Some('/'));
    assert_eq!(Token::DecimalSeparator.symbol(), Some('.'));
    assert_eq!(Token::Equals.symbol(), None);
    assert_eq!(Token::Divide.label(), "\u{f7}");
    assert_eq!(Token::Backspace.label(), "\u{2190}");
    assert_eq!(Token::DecimalSeparator.label(), ",");
    assert!(Token::Digit3.is_digit());
    assert!(!Token::Add.is_digit());
    assert!(Token::Equals.is_equals());
}

#[test]
fn keypad_layout() {
    let grid = keypad();
    assert_eq!(grid.len(), ROWS);
    let labels: Vec<Vec<&str>> = grid
        .iter()
        .map(|row| row.iter().map(|k| k.map_or("", |t| t.label())).collect())
        .collect();
    assert_eq!(
        labels,
        vec![
            vec!["C", "\u{2190}", "%", "\u{f7}"],
            vec!["7", "8", "9", "*"],
            vec!["4", "5", "6", "-"],
            vec!["1", "2", "3", "+"],
            vec!["", "0", ",", "="],
        ]
    );
    assert!(grid.iter().all(|row| row.len() == COLUMNS));
}
