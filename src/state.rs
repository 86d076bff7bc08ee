//! The executable typing session.
use std::collections::VecDeque;
use vstd::prelude::*;

use crate::model::TypingModel;

verus! {

/// Relies on `String::push`, which appends the given character to the end of
/// the string.
pub assume_specification[ String::push ](s: &mut String, ch: char)
    ensures
        final(s)@ == old(s)@.push(ch),
;

/// A typing session over a target text.
///
/// `typed` holds the characters confirmed so far, `mistyped` the expected
/// character parked after a wrong keystroke, `current` the character expected
/// next and `untyped` the characters not reached yet.
#[derive(Debug, PartialEq, Eq, Clone)]
pub struct TypingState {
    pub typed: String,
    pub mistyped: Option<char>,
    pub current: Option<char>,
    pub untyped: VecDeque<char>,
}

impl View for TypingState {
    type V = TypingModel;

    open spec fn view(&self) -> TypingModel {
        TypingModel {
            typed: self.typed@,
            mistyped: self.mistyped,
            current: self.current,
            untyped: self.untyped@,
        }
    }
}

impl TypingState {
    /// Starts a session on `text`: nothing typed, its first character
    /// expected next. An empty text gives a session that is already complete.
    pub fn new(text: &str) -> (r: TypingState)
        ensures
            r@ == TypingModel::init(text@),
            r@.wf(),
            r@.text() == text@,
    {
        let mut current: Option<char> = None;
        let mut untyped: VecDeque<char> = VecDeque::new();
        for c in it: text.chars()
            invariant
                it.seq() == text@,
                it.index() == 0 ==> current is None && untyped@.len() == 0,
                it.index() > 0 ==> current == Some(text@[0]) && untyped@ == text@.subrange(1, it.index() as int),
        {
            if current.is_none() {
                current = Some(c);
            } else {
                untyped.push_back(c);
            }
        }
        proof {
            assert(untyped@.len() == 0 ==> untyped@ =~= Seq::empty());
            if text@.len() > 0 {
                assert(untyped@ =~= text@.drop_first());
                assert(seq![text@[0]] + text@.drop_first() =~= text@);
            }
        }
        TypingState { typed: String::new(), mistyped: None, current, untyped }
    }

    /// Applies one keystroke.
    ///
    /// Typing the parked character restores it as the expected one, and in
    /// the same keystroke confirms it. Typing the expected character moves it
    /// to `typed` and makes the next character expected. Any other keystroke
    /// parks the expected character in `mistyped`, or, while a character is
    /// parked already, changes nothing.
    pub fn update_state(&mut self, input: char)
        ensures
            final(self)@ == old(self)@.step(input),
            old(self)@.wf() ==> final(self)@.wf() && final(self)@.text() == old(self)@.text(),
    {
        if let Some(m) = self.mistyped {
            if m == input {
                self.current = Some(m);
                self.mistyped = None;
            }
        }
        let matched = match self.current {
            Some(c) => c == input,
            None => false,
        };
        if matched {
            self.typed.push(input);
            self.current = self.untyped.pop_front();
            proof {
                if old(self)@.corrected(input).untyped.len() > 0 {
                    assert(self.untyped@ =~= old(self)@.corrected(input).untyped.drop_first());
                }
            }
        } else if self.mistyped.is_none() {
            self.mistyped = self.current;
            self.current = None;
        }
        proof {
            if old(self)@.wf() {
                old(self)@.lemma_step(input);
            }
        }
    }

    /// Whether nothing is left to reach and nothing is expected next. A
    /// mistake parked on the last character leaves both empty, so it counts
    /// as complete too.
    pub fn is_complete(&self) -> (r: bool)
        ensures
            r == self@.complete(),
    {
        self.untyped.len() == 0 && self.current.is_none()
    }
}

} // verus!
