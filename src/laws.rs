//! Properties of every session, over any sequence of keystrokes.
use vstd::prelude::*;

use crate::model::TypingModel;

verus! {

/// A well-formed session stays well formed and keeps its text over any run of
/// keystrokes.
pub proof fn lemma_run_keeps_wf_and_text(m: TypingModel, keys: Seq<char>)
    requires
        m.wf(),
    ensures
        m.run(keys).wf(),
        m.run(keys).text() == m.text(),
    decreases keys.len(),
{
    if keys.len() > 0 {
        m.lemma_step(keys[0]);
        lemma_run_keeps_wf_and_text(m.step(keys[0]), keys.drop_first());
    }
}

/// A session started on `text` is well formed before any keystroke.
pub proof fn lemma_init_wf(text: Seq<char>)
    ensures
        TypingModel::init(text).wf(),
        TypingModel::init(text).text() == text,
{
    let m = TypingModel::init(text);
    if text.len() > 0 {
        assert(m.text() =~= seq![text[0]] + text.drop_first());
        assert(seq![text[0]] + text.drop_first() =~= text);
    } else {
        assert(m.text() =~= text);
    }
}

/// After any keystrokes, `typed`, then the filled slot, then `untyped` spell
/// the target text; once both slots are empty, `typed` is the whole text.
pub proof fn law_text_reconstructed(text: Seq<char>, keys: Seq<char>)
    ensures
        TypingModel::init(text).run(keys).text() == text,
        ({
            let m = TypingModel::init(text).run(keys);
            m.mistyped is None && m.current is None ==> m.typed == text && m.untyped.len() == 0
        }),
{
    lemma_init_wf(text);
    lemma_run_keeps_wf_and_text(TypingModel::init(text), keys);
    let m = TypingModel::init(text).run(keys);
    if m.mistyped is None && m.current is None {
        assert(m.text() =~= m.typed);
    }
}

/// After any keystrokes, `mistyped` and `current` are never both filled.
pub proof fn law_slots_exclusive(text: Seq<char>, keys: Seq<char>)
    ensures
        !(TypingModel::init(text).run(keys).mistyped is Some && TypingModel::init(text).run(keys).current is Some),
{
    lemma_init_wf(text);
    lemma_run_keeps_wf_and_text(TypingModel::init(text), keys);
}

/// Once a session is complete, a keystroke changes nothing, unless it is the
/// parked character of a mistake made on the last character.
pub proof fn law_complete_is_fixed(m: TypingModel, input: char)
    requires
        m.complete(),
        m.mistyped != Some(input),
    ensures
        m.step(input) == m,
{
}

} // verus!
