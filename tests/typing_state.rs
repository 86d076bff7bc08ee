use std::collections::VecDeque;
use typing_state::TypingState;

fn chars(s: &str) -> VecDeque<char> {
    s.chars().collect()
}

#[test]
// Tests that the state doesn't panic when is completed
fn update_state_completed() {
    let mut sentence = TypingState::new("T.");
    sentence.update_state('T');
    sentence.update_state('.');

    let solution = TypingState {
        typed: String::from("T."),
        mistyped: None,
        current: None,
        untyped: chars(""),
    };

    assert_eq!(solution, sentence);
}

#[test]
// Tests that the state retains the correct values after a char was mistyped several times
fn update_state_double_mistyped() {
    let mut sentence = TypingState::new("This is a simple sentence.");
    sentence.update_state('t');
    sentence.update_state('d');

    let solution = TypingState {
        typed: String::from(""),
        mistyped: Some('T'),
        current: None,
        untyped: chars("his is a simple sentence."),
    };

    assert_eq!(solution, sentence);
}

#[test]
// Tests that the state was updated correctly after a char was mistyped
fn update_state_mistyped() {
    let mut sentence = TypingState::new("This is a simple sentence.");
    sentence.update_state('t');

    let solution = TypingState {
        typed: String::from(""),
        mistyped: Some('T'),
        current: None,
        untyped: chars("his is a simple sentence."),
    };

    assert_eq!(solution, sentence);
}

#[test]
// Tests that the state was updated correctly
fn update_state() {
    let mut sentence = TypingState::new("This is a simple sentence.");
    sentence.update_state('T');

    let solution = TypingState {
        typed: String::from("T"),
        mistyped: None,
        current: Some('h'),
        untyped: chars("is is a simple sentence."),
    };

    assert_eq!(solution, sentence);
}

#[test]
// Tests that the state was created correctly from an &str
fn typing_state() {
    let sentence = TypingState::new("This is a simple sentence.");
    let solution = TypingState {
        typed: String::from(""),
        mistyped: None,
        current: Some('T'),
        untyped: chars("his is a simple sentence."),
    };

    assert_eq!(solution, sentence);
}
