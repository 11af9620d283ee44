//! Cursor state machine: the ordered list of words of a session together
//! with the cursor position, and the transitions driven by input events —
//! typing a character, advancing over a space, and backspacing (possibly
//! across a word boundary).

use vstd::prelude::*;

use crate::word::EXTRA_CHAR_BOUNDARY;
use crate::word::StyledChar;
use crate::word::StyledWord;
use crate::word::TypedState;
use crate::word::fresh_chars;

verus! {

broadcast use vstd::group_vstd_default;

/// Mathematical model of one word of the session: its classified character
/// slots, the length of its target text, and the offset the user's cursor
/// has reached within it.
#[verifier::ext_equal]
pub struct WordModel {
    pub chars: Seq<StyledChar>,
    pub og_len: nat,
    pub cursor: nat,
}

/// Well-formedness of a word model. The slot count never falls below the
/// original length, extras exist exactly as far as the cursor has overtyped
/// (so the slot count is the larger of original length and cursor), the
/// cursor never overtypes past the extra-character bound, and every
/// user-introduced slot is classified as an extra mistype.
pub open spec fn word_model_wf(m: WordModel) -> bool {
    &&& m.og_len <= m.chars.len()
    &&& m.cursor <= m.chars.len()
    &&& (m.cursor <= m.og_len ==> m.chars.len() == m.og_len)
    &&& (m.og_len < m.cursor ==> m.chars.len() == m.cursor)
    &&& m.chars.len() <= m.og_len + EXTRA_CHAR_BOUNDARY
    &&& forall|i: int|
        m.og_len <= i < m.chars.len() ==> (#[trigger] m.chars[i]).state == TypedState::MistypeExtra
}

/// The model of a word freshly created for the target text `target`.
pub open spec fn fresh_word(target: Seq<char>) -> WordModel {
    WordModel { chars: fresh_chars(target), og_len: target.len(), cursor: 0 }
}

/// The state a slot receives when the user types `typed` where `expected`
/// stands: correct on a match, a mistype otherwise.
pub open spec fn classify(expected: char, typed: char) -> TypedState {
    if typed == expected {
        TypedState::Correct
    } else {
        TypedState::Mistype
    }
}

/// One character keystroke applied to a word. Within the existing slots the
/// slot under the cursor is classified and the cursor advances; past them,
/// an extra-mistype slot is appended while the extra-character bound allows
/// it, and otherwise the keystroke is discarded.
pub open spec fn press_char_word(m: WordModel, c: char) -> WordModel {
    if m.cursor < m.chars.len() {
        let slot = m.chars[m.cursor as int];
        WordModel {
            chars: m.chars.update(
                m.cursor as int,
                StyledChar { value: slot.value, state: classify(slot.value, c) },
            ),
            og_len: m.og_len,
            cursor: m.cursor + 1,
        }
    } else if m.chars.len() - m.og_len < EXTRA_CHAR_BOUNDARY {
        WordModel {
            chars: m.chars.push(StyledChar { value: c, state: TypedState::MistypeExtra }),
            og_len: m.og_len,
            cursor: m.cursor + 1,
        }
    } else {
        m
    }
}

/// One backspace applied within a word whose cursor is past its start. The
/// cursor steps back; a user-introduced slot is removed entirely, while a
/// slot of the original text is reverted to untyped.
pub open spec fn backspace_word(m: WordModel) -> WordModel
    recommends
        m.cursor > 0,
{
    let back = (m.cursor - 1) as int;
    if back >= m.og_len {
        WordModel { chars: m.chars.drop_last(), og_len: m.og_len, cursor: back as nat }
    } else {
        let slot = m.chars[back];
        WordModel {
            chars: m.chars.update(back, StyledChar { value: slot.value, state: TypedState::Untyped }),
            og_len: m.og_len,
            cursor: back as nat,
        }
    }
}

/// One word of the session paired with the cursor offset the user has
/// reached in it. Every word keeps its own offset, so leaving a word and
/// coming back to it finds its progress exactly as left.
#[derive(Clone, Debug)]
pub struct CursorWord {
    pub word: StyledWord,
    pub cursor_idx: usize,
}

impl View for CursorWord {
    type V = WordModel;

    open spec fn view(&self) -> WordModel {
        WordModel {
            chars: self.word.chars@,
            og_len: self.word.og_len as nat,
            cursor: self.cursor_idx as nat,
        }
    }
}

impl CursorWord {
    /// Well-formed words also leave room to advance the cursor without the
    /// offset arithmetic overflowing the machine's integer type.
    pub open spec fn wf(self) -> bool {
        &&& word_model_wf(self@)
        &&& self.word.og_len + EXTRA_CHAR_BOUNDARY <= usize::MAX
    }

    pub fn new(word: StyledWord) -> (cw: Self)
        requires
            word.og_len == word.chars@.len(),
            word.og_len + EXTRA_CHAR_BOUNDARY <= usize::MAX,
            forall|i: int|
                0 <= i < word.chars@.len() ==> (#[trigger] word.chars@[i]).state
                    == TypedState::Untyped,
        ensures
            cw.wf(),
            cw@ == (WordModel { chars: word.chars@, og_len: word.og_len as nat, cursor: 0 }),
    {
        CursorWord { word, cursor_idx: 0 }
    }

    /// Apply one character keystroke to this word.
    pub fn press(&mut self, pressed_char: char)
        requires
            old(self).wf(),
        ensures
            final(self).wf(),
            final(self)@ == press_char_word(old(self)@, pressed_char),
            final(self).word.og_len == old(self).word.og_len,
    {
        if let Some(ch) = self.word.character_at(self.cursor_idx) {
            let data = ch.get_char_data();
            if data == pressed_char {
                self.word.set_state(self.cursor_idx, TypedState::Correct);
            } else {
                self.word.set_state(self.cursor_idx, TypedState::Mistype);
            }
        } else {
            if self.word.chars.len() - self.word.og_len >= EXTRA_CHAR_BOUNDARY {
                return ;
            }
            self.word.append_char(StyledChar::new_bad_char(pressed_char));
        }
        self.cursor_idx += 1;
    }

    /// Apply one backspace to this word; the cursor must be past its start.
    pub fn backspace(&mut self)
        requires
            old(self).wf(),
            old(self).cursor_idx > 0,
        ensures
            final(self).wf(),
            final(self)@ == backspace_word(old(self)@),
            final(self).word.og_len == old(self).word.og_len,
    {
        self.cursor_idx -= 1;
        if self.cursor_idx >= self.word.og_len {
            self.word.chars.pop();
        } else {
            self.word.set_state(self.cursor_idx, TypedState::Untyped);
        }
    }
}

/// Cursor over the session's word list: the index of the word being typed
/// and the ordered words themselves. `word_idx == words.len()` signals that
/// the session is complete.
#[derive(Debug)]
pub struct UserCursor {
    pub word_idx: usize,
    pub words: Vec<CursorWord>,
}

/// Relation between the cursor before and after one character keystroke:
/// the word under the cursor takes the word-level keystroke step and
/// nothing else changes.
pub open spec fn cursor_presses(prev: UserCursor, next: UserCursor, c: char) -> bool {
    &&& next.word_idx == prev.word_idx
    &&& next.words@.len() == prev.words@.len()
    &&& next.words@ == prev.words@.update(prev.word_idx as int, next.words@[prev.word_idx as int])
    &&& next.words@[prev.word_idx as int]@ == press_char_word(
        prev.words@[prev.word_idx as int]@,
        c,
    )
}

/// Relation between the cursor before and after a space keystroke: the word
/// index advances unconditionally and every word — including the one just
/// abandoned, however far it was typed — is left exactly as it stands.
pub open spec fn cursor_spaces(prev: UserCursor, next: UserCursor) -> bool {
    &&& next.word_idx == prev.word_idx + 1
    &&& next.words@ == prev.words@
}

/// Relation between the cursor before and after one backspace. At the very
/// start of the first word nothing changes; at the start of a later word the
/// cursor moves to the previous word, whose stored offset (and every word)
/// is kept exactly as it was; within a word, the word takes the word-level
/// backspace step and nothing else changes.
pub open spec fn cursor_deletes(prev: UserCursor, next: UserCursor) -> bool {
    let at = prev.word_idx as int;
    let offset = prev.words@[at].cursor_idx;
    &&& (offset == 0 && prev.word_idx == 0 ==> next == prev)
    &&& (offset == 0 && prev.word_idx > 0 ==> {
        &&& next.word_idx == prev.word_idx - 1
        &&& next.words@ == prev.words@
    })
    &&& (offset > 0 ==> {
        &&& next.word_idx == prev.word_idx
        &&& next.words@.len() == prev.words@.len()
        &&& next.words@ == prev.words@.update(at, next.words@[at])
        &&& next.words@[at]@ == backspace_word(prev.words@[at]@)
    })
}

/// Where the session cursor falls for one slot of the rendered line, in
/// which word `j` of the session occupies display slot `2*j` and the
/// separator after it display slot `2*j + 1`.
#[derive(Clone, Copy, Debug, PartialEq, Eq, Structural)]
pub enum CursorHighlight {
    /// The cursor rests on the character at this offset of the word.
    OnChar(usize),
    /// The word is fully traversed and the cursor rests on the separator.
    OnSeparator,
    /// The cursor is not in this display slot.
    Absent,
}

impl UserCursor {
    pub open spec fn wf(self) -> bool {
        &&& self.word_idx <= self.words@.len()
        &&& forall|i: int| 0 <= i < self.words@.len() ==> (#[trigger] self.words@[i]).wf()
    }

    /// The session is complete exactly when the cursor has advanced past
    /// the last word, whether or not that word was fully or correctly typed.
    pub fn is_game_done(&self) -> (done: bool)
        ensures
            done == (self.word_idx == self.words@.len()),
    {
        self.word_idx == self.words.len()
    }

    /// A space unconditionally advances to the next word; the abandoned
    /// word keeps whatever progress and classifications it already had.
    pub fn handle_space_press(&mut self)
        requires
            old(self).wf(),
            old(self).word_idx < old(self).words@.len(),
        ensures
            final(self).wf(),
            cursor_spaces(*old(self), *final(self)),
    {
        // Reading the length as a usize shows the increment cannot overflow.
        let word_count = self.words.len();
        assert(self.word_idx < word_count);
        self.word_idx += 1;
    }

    pub fn get_cursor_word(&self) -> (cw: &CursorWord)
        requires
            self.word_idx < self.words@.len(),
        ensures
            cw == self.words@[self.word_idx as int],
    {
        &self.words[self.word_idx]
    }

    /// Apply one character keystroke to the word under the cursor.
    pub fn handle_key_press(&mut self, pressed_char: char)
        requires
            old(self).wf(),
            old(self).word_idx < old(self).words@.len(),
        ensures
            final(self).wf(),
            cursor_presses(*old(self), *final(self), pressed_char),
    {
        let idx = self.word_idx;
        let cursor_word = &mut self.words[idx];
        cursor_word.press(pressed_char);
    }

    /// Apply one backspace. The cursor will not move before the very first
    /// character of the first word; at the start of a later word it returns
    /// to the previous word at that word's own stored offset; within a word
    /// it steps back, removing a user-introduced character entirely and
    /// reverting an original character to untyped.
    pub fn handle_delete(&mut self)
        requires
            old(self).wf(),
            old(self).word_idx < old(self).words@.len(),
        ensures
            final(self).wf(),
            cursor_deletes(*old(self), *final(self)),
    {
        let cursor_idx = self.words[self.word_idx].cursor_idx;
        if cursor_idx == 0 && self.word_idx == 0 {
            return ;
        }
        if cursor_idx == 0 {
            self.word_idx -= 1;
            return ;
        }
        let idx = self.word_idx;
        let cursor_word = &mut self.words[idx];
        cursor_word.backspace();
    }

    /// Rendering decision for display slot `display_idx`: whether the
    /// cursor highlights a character of the word shown there, the separator
    /// after it, or nothing. The cursor highlights a character while its
    /// offset is inside the word, and the separator once the word's slots
    /// are exhausted.
    pub fn highlight_at(&self, display_idx: usize) -> (h: CursorHighlight)
        requires
            self.wf(),
            self.word_idx < self.words@.len(),
        ensures
            ({
                let cw = self.words@[self.word_idx as int];
                let word_length = cw.word.chars@.len();
                &&& (display_idx == 2 * self.word_idx && cw.cursor_idx < word_length ==> h
                    == CursorHighlight::OnChar(cw.cursor_idx))
                &&& (display_idx == 2 * self.word_idx + 1 && cw.cursor_idx == word_length ==> h
                    == CursorHighlight::OnSeparator)
                &&& (!(display_idx == 2 * self.word_idx && cw.cursor_idx < word_length) && !(
                display_idx == 2 * self.word_idx + 1 && cw.cursor_idx == word_length) ==> h
                    == CursorHighlight::Absent)
            }),
    {
        let cursor_word = &self.words[self.word_idx];
        let word_length = cursor_word.word.chars.len();
        assert(cursor_word.cursor_idx <= word_length);
        let on_cursor_word = display_idx % 2 == 0 && display_idx / 2 == self.word_idx;
        let on_cursor_space = display_idx % 2 == 1 && display_idx / 2 == self.word_idx;
        if on_cursor_word && cursor_word.cursor_idx < word_length {
            CursorHighlight::OnChar(cursor_word.cursor_idx)
        } else if on_cursor_space && cursor_word.cursor_idx == word_length {
            CursorHighlight::OnSeparator
        } else {
            CursorHighlight::Absent
        }
    }
}

} // verus!
