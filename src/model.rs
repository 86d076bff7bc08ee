//! The mathematical model of a typing session: four segments of the target
//! text and the rules that move characters between them, one keystroke at a
//! time.
use vstd::prelude::*;

verus! {

/// Abstract view of a typing session.
///
/// `mistyped` and `current` are single-character slots: `current` is the
/// character expected next, and `mistyped` parks it after a wrong keystroke
/// until the user types it.
pub struct TypingModel {
    pub typed: Seq<char>,
    pub mistyped: Option<char>,
    pub current: Option<char>,
    pub untyped: Seq<char>,
}

/// The slot's contents as a sequence of zero or one characters.
pub open spec fn slot_seq(slot: Option<char>) -> Seq<char> {
    match slot {
        Some(c) => seq![c],
        None => Seq::empty(),
    }
}

impl TypingModel {
    /// The session at its start: nothing typed, the first character expected.
    /// An empty text gives a session that is already complete.
    pub open spec fn init(text: Seq<char>) -> TypingModel {
        if text.len() == 0 {
            TypingModel { typed: Seq::empty(), mistyped: None, current: None, untyped: Seq::empty() }
        } else {
            TypingModel {
                typed: Seq::empty(),
                mistyped: None,
                current: Some(text[0]),
                untyped: text.drop_first(),
            }
        }
    }

    /// The target text, read back from the segments in order.
    pub open spec fn text(self) -> Seq<char> {
        self.typed + slot_seq(self.mistyped) + slot_seq(self.current) + self.untyped
    }

    /// Nothing is left to reach and nothing is expected next.
    pub open spec fn complete(self) -> bool {
        self.untyped.len() == 0 && self.current is None
    }

    /// The two slots are never both filled, and both are empty only once the
    /// whole text has been reached.
    pub open spec fn wf(self) -> bool {
        &&& !(self.mistyped is Some && self.current is Some)
        &&& (self.mistyped is None && self.current is None) ==> self.untyped.len() == 0
    }

    /// First rule: typing the parked character restores it as the expected one.
    pub open spec fn corrected(self, input: char) -> TypingModel {
        if self.mistyped == Some(input) {
            TypingModel { mistyped: None, current: Some(input), ..self }
        } else {
            self
        }
    }

    /// The expected character is confirmed and the next one, if any, becomes
    /// expected.
    pub open spec fn advanced(self) -> TypingModel {
        let typed = match self.current {
            Some(c) => self.typed.push(c),
            None => self.typed,
        };
        if self.untyped.len() > 0 {
            TypingModel { typed, current: Some(self.untyped[0]), untyped: self.untyped.drop_first(), ..self }
        } else {
            TypingModel { typed, current: None, ..self }
        }
    }

    /// One keystroke. After the correction rule, a keystroke equal to the
    /// expected character advances; any other keystroke parks the expected
    /// character, unless a character is parked already, in which case the
    /// keystroke has no effect.
    pub open spec fn step(self, input: char) -> TypingModel {
        let s = self.corrected(input);
        if s.current == Some(input) {
            s.advanced()
        } else if s.mistyped is None {
            TypingModel { mistyped: s.current, current: None, ..s }
        } else {
            s
        }
    }

    /// The session after the given keystrokes, in order.
    pub open spec fn run(self, keys: Seq<char>) -> TypingModel
        decreases keys.len(),
    {
        if keys.len() == 0 {
            self
        } else {
            self.step(keys[0]).run(keys.drop_first())
        }
    }

    /// In a well-formed session a keystroke relocates characters between the
    /// segments without adding or losing any, and keeps the session well
    /// formed.
    pub proof fn lemma_step(self, input: char)
        requires
            self.wf(),
        ensures
            self.step(input).text() == self.text(),
            self.step(input).wf(),
    {
        let s = self.corrected(input);
        assert(s.text() =~= self.text());
        if s.current == Some(input) {
            let t = s.untyped;
            let a = s.advanced();
            assert(s.mistyped is None);
            if t.len() > 0 {
                assert(t =~= seq![t[0]] + t.drop_first());
                assert(a.text() =~= s.typed.push(input) + seq![t[0]] + t.drop_first());
            } else {
                assert(a.text() =~= s.typed.push(input));
            }
            assert(s.text() =~= s.typed.push(input) + t);
        } else if s.mistyped is None {
            assert(s.step(input).text() =~= s.text());
        }
    }
}

} // verus!
