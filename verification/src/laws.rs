//! Laws of the typing state machine, stated over the word model and the
//! spec-level transition functions that the executable contracts are pinned
//! to, and proved for all words and all keystroke sequences.

use vstd::math::min;
use vstd::prelude::*;

use crate::cursor::WordModel;
use crate::cursor::backspace_word;
use crate::cursor::classify;
use crate::cursor::fresh_word;
use crate::cursor::press_char_word;
use crate::cursor::word_model_wf;
use crate::word::EXTRA_CHAR_BOUNDARY;
use crate::word::StyledChar;
use crate::word::TypedState;

verus! {

broadcast use vstd::group_vstd_default;

/// The word model reached by pressing the character keystrokes `keys`, in
/// order, starting from `m`.
pub open spec fn press_all(m: WordModel, keys: Seq<char>) -> WordModel
    decreases keys.len(),
{
    if keys.len() == 0 {
        m
    } else {
        press_char_word(press_all(m, keys.drop_last()), keys.last())
    }
}

/// Full shape of a word created for the target text `target` after the
/// keystrokes `keys`: the cursor has advanced one slot per keystroke up to
/// the extra-character cap; target characters keep their values; each slot
/// the cursor has passed is classified against the keystroke that reached
/// it; slots not yet reached are still untyped; and every slot past the
/// target text holds the keystroke that produced it, classified as an
/// extra mistype.
pub open spec fn pressed_word_shape(target: Seq<char>, keys: Seq<char>, m: WordModel) -> bool {
    &&& word_model_wf(m)
    &&& m.og_len == target.len()
    &&& m.cursor == min(keys.len() as int, target.len() + EXTRA_CHAR_BOUNDARY)
    &&& forall|i: int| 0 <= i < target.len() ==> (#[trigger] m.chars[i]).value == target[i]
    &&& forall|i: int|
        0 <= i < min(keys.len() as int, target.len() as int) ==> (#[trigger] m.chars[i]).state
            == classify(target[i], keys[i])
    &&& forall|i: int|
        min(keys.len() as int, target.len() as int) <= i < target.len() ==> (
        #[trigger] m.chars[i]).state == TypedState::Untyped
    &&& forall|i: int|
        target.len() <= i < m.chars.len() ==> (#[trigger] m.chars[i]) == (StyledChar {
            value: keys[i],
            state: TypedState::MistypeExtra,
        })
}

/// A freshly created word has the shape of one that has seen no keystrokes.
proof fn lemma_fresh_shape(target: Seq<char>)
    ensures
        pressed_word_shape(target, Seq::<char>::empty(), fresh_word(target)),
{
    assert(fresh_word(target).chars.len() == target.len());
    assert forall|i: int| 0 <= i < target.len() implies (#[trigger] fresh_word(
        target,
    ).chars[i]).value == target[i] && fresh_word(target).chars[i].state
        == TypedState::Untyped by {}
}

/// One keystroke preserves the shape: a word shaped by `ks` steps to a word
/// shaped by `ks.push(c)`.
proof fn lemma_press_step_shape(
    target: Seq<char>,
    ks: Seq<char>,
    c: char,
    prev: WordModel,
    next: WordModel,
)
    requires
        pressed_word_shape(target, ks, prev),
        next == press_char_word(prev, c),
    ensures
        pressed_word_shape(target, ks.push(c), next),
{
    let k = ks.len() as int;
    let og = target.len() as int;
    assert(ks.push(c).len() == k + 1);
    assert(forall|i: int| 0 <= i < k ==> #[trigger] ks.push(c)[i] == ks[i]);
    assert(ks.push(c)[k] == c);
    if prev.cursor < prev.chars.len() {
        assert(prev.cursor < prev.og_len);
        assert(prev.cursor == k);
        assert(next.chars.len() == prev.chars.len());
        assert(next.chars[k].state == classify(target[k], c));
        assert(forall|j: int|
            0 <= j < prev.chars.len() && j != k ==> #[trigger] next.chars[j] == prev.chars[j]);
    } else if prev.chars.len() - prev.og_len < EXTRA_CHAR_BOUNDARY {
        assert(prev.cursor == prev.chars.len());
        assert(prev.cursor == k);
        assert(next.chars.len() == prev.chars.len() + 1);
        assert(next.chars[k] == (StyledChar { value: c, state: TypedState::MistypeExtra }));
        assert(forall|j: int|
            0 <= j < prev.chars.len() ==> #[trigger] next.chars[j] == prev.chars[j]);
    } else {
        assert(prev.chars.len() == prev.og_len + EXTRA_CHAR_BOUNDARY);
        assert(prev.cursor == og + EXTRA_CHAR_BOUNDARY);
        assert(next == prev);
    }
}

/// Typing any keystroke sequence into a fresh word yields exactly the word
/// shape described by `pressed_word_shape`.
pub proof fn lemma_press_all_fresh(target: Seq<char>, keys: Seq<char>)
    ensures
        pressed_word_shape(target, keys, press_all(fresh_word(target), keys)),
    decreases keys.len(),
{
    if keys.len() == 0 {
        lemma_fresh_shape(target);
        assert(keys =~= Seq::<char>::empty());
    } else {
        lemma_press_all_fresh(target, keys.drop_last());
        lemma_press_step_shape(
            target,
            keys.drop_last(),
            keys.last(),
            press_all(fresh_word(target), keys.drop_last()),
            press_all(fresh_word(target), keys),
        );
        assert(keys.drop_last().push(keys.last()) =~= keys);
    }
}

/// Typing a word's target text exactly leaves every slot of the original
/// text correct, no extra slots, and the cursor exactly at the original
/// length.
pub proof fn lemma_exact_typing_all_correct(target: Seq<char>)
    ensures
        press_all(fresh_word(target), target).cursor == target.len(),
        press_all(fresh_word(target), target).chars.len() == target.len(),
        forall|i: int|
            0 <= i < target.len() ==> (#[trigger] press_all(fresh_word(target), target).chars[i])
                == (StyledChar { value: target[i], state: TypedState::Correct }),
{
    lemma_press_all_fresh(target, target);
}

/// A mismatched keystroke within the original text marks exactly the slot
/// under the cursor as a mistype and advances the cursor; every other slot
/// keeps both its value and its state, and the word's length is unchanged.
pub proof fn lemma_mistype_is_local(m: WordModel, c: char)
    requires
        word_model_wf(m),
        m.cursor < m.og_len,
        c != m.chars[m.cursor as int].value,
    ensures
        press_char_word(m, c).chars.len() == m.chars.len(),
        press_char_word(m, c).og_len == m.og_len,
        press_char_word(m, c).cursor == m.cursor + 1,
        press_char_word(m, c).chars[m.cursor as int].state == TypedState::Mistype,
        press_char_word(m, c).chars[m.cursor as int].value == m.chars[m.cursor as int].value,
        forall|j: int|
            0 <= j < m.chars.len() && j != m.cursor ==> #[trigger] press_char_word(m, c).chars[j]
                == m.chars[j],
{
}

/// Overtyping: after the target text, each further keystroke up to the
/// extra-character bound appends one trailing extra-mistype slot; beyond
/// the bound the word's length stays capped at the bound and further
/// keystrokes change nothing.
pub proof fn lemma_overtyping(target: Seq<char>, keys: Seq<char>)
    requires
        keys.len() >= target.len(),
    ensures
        keys.len() <= target.len() + EXTRA_CHAR_BOUNDARY ==> press_all(
            fresh_word(target),
            keys,
        ).chars.len() == keys.len(),
        keys.len() <= target.len() + EXTRA_CHAR_BOUNDARY ==> forall|i: int|
            target.len() <= i < keys.len() ==> (#[trigger] press_all(
                fresh_word(target),
                keys,
            ).chars[i]).state == TypedState::MistypeExtra,
        keys.len() > target.len() + EXTRA_CHAR_BOUNDARY ==> press_all(
            fresh_word(target),
            keys,
        ).chars.len() == target.len() + EXTRA_CHAR_BOUNDARY,
        keys.len() > target.len() + EXTRA_CHAR_BOUNDARY ==> press_all(
            fresh_word(target),
            keys,
        ).cursor == target.len() + EXTRA_CHAR_BOUNDARY,
{
    lemma_press_all_fresh(target, keys);
}

/// Backspace after an extra character removes exactly that slot: the word
/// shortens by one, every remaining slot is untouched, and the cursor steps
/// back by one.
pub proof fn lemma_backspace_removes_extra(m: WordModel)
    requires
        word_model_wf(m),
        m.cursor > m.og_len,
    ensures
        backspace_word(m).chars.len() == m.chars.len() - 1,
        backspace_word(m).chars == m.chars.drop_last(),
        backspace_word(m).og_len == m.og_len,
        backspace_word(m).cursor == m.cursor - 1,
        forall|j: int|
            0 <= j < m.chars.len() - 1 ==> #[trigger] backspace_word(m).chars[j] == m.chars[j],
{
}

/// Backspace within the original text reverts exactly the slot the cursor
/// steps back onto to untyped, keeping its value; the word's length and
/// every other slot are unchanged.
pub proof fn lemma_backspace_reverts_slot(m: WordModel)
    requires
        word_model_wf(m),
        0 < m.cursor <= m.og_len,
    ensures
        backspace_word(m).chars.len() == m.chars.len(),
        backspace_word(m).og_len == m.og_len,
        backspace_word(m).cursor == m.cursor - 1,
        backspace_word(m).chars[m.cursor - 1].state == TypedState::Untyped,
        backspace_word(m).chars[m.cursor - 1].value == m.chars[m.cursor - 1].value,
        forall|j: int|
            0 <= j < m.chars.len() && j != m.cursor - 1 ==> #[trigger] backspace_word(m).chars[j]
                == m.chars[j],
{
}

} // verus!
