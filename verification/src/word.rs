//! Per-word typing model: one target word is an ordered buffer of classified
//! characters. The original length is tracked separately from the current
//! length, since the user may overtype a bounded number of extra characters.

use vstd::prelude::*;

verus! {

broadcast use vstd::group_vstd_default;

/// Greatest number of extra characters a word may accumulate beyond its
/// original text; once the bound is reached, further extra keystrokes are
/// silently discarded.
pub const EXTRA_CHAR_BOUNDARY: usize = 5;

/// Classification of one character slot of a word.
#[derive(Clone, Copy, Debug, PartialEq, Eq, Structural)]
pub enum TypedState {
    /// Typed, and it did not match the expected character.
    Mistype,
    /// Not yet reached by the cursor.
    Untyped,
    /// Typed, and it matched the expected character.
    Correct,
    /// Typed beyond the word's original length.
    MistypeExtra,
}

/// A single classified character: the character itself together with the
/// state the user's typing has put it in.
#[derive(Clone, Copy, Debug, PartialEq, Eq, Structural)]
pub struct StyledChar {
    pub value: char,
    pub state: TypedState,
}

impl StyledChar {
    pub fn new(ch: char) -> (r: Self)
        ensures
            r == (StyledChar { value: ch, state: TypedState::Untyped }),
    {
        StyledChar { value: ch, state: TypedState::Untyped }
    }

    /// Create a character that the user produced beyond the word's original
    /// length; such a slot is always classified as an extra mistype.
    pub fn new_bad_char(ch: char) -> (r: Self)
        ensures
            r == (StyledChar { value: ch, state: TypedState::MistypeExtra }),
    {
        StyledChar { value: ch, state: TypedState::MistypeExtra }
    }

    /// Re-classify this character; its value never changes.
    pub fn switch_typed_state(&mut self, state: TypedState)
        ensures
            *final(self) == (StyledChar { value: old(self).value, state }),
    {
        self.state = state;
    }

    pub fn get_char_data(&self) -> (c: char)
        ensures
            c == self.value,
    {
        self.value
    }
}

/// An untyped slot holding the target character `c`.
pub open spec fn untyped_slot(c: char) -> StyledChar {
    StyledChar { value: c, state: TypedState::Untyped }
}

/// The slots a freshly created word holds for the target text `target`: the
/// target's characters in order, each still untyped.
pub open spec fn fresh_chars(target: Seq<char>) -> Seq<StyledChar> {
    Seq::new(target.len(), |i: int| untyped_slot(target[i]))
}

/// One target word: its character slots and the length of the target text.
/// Slots before `og_len` correspond one to one to the target text and only
/// ever change state; slots at or beyond `og_len` are user-introduced.
#[derive(Clone, Debug)]
pub struct StyledWord {
    pub chars: Vec<StyledChar>,
    pub og_len: usize,
}

impl StyledWord {
    pub fn from_chars(chars: Vec<char>) -> (w: Self)
        ensures
            w.og_len == chars@.len(),
            w.chars@ == fresh_chars(chars@),
    {
        let og_len = chars.len();
        let mut styled: Vec<StyledChar> = Vec::new();
        let mut i: usize = 0;
        while i < og_len
            invariant
                og_len == chars@.len(),
                i <= og_len,
                styled@.len() == i,
                forall|j: int| 0 <= j < i ==> (#[trigger] styled@[j])
                    == (StyledChar { value: chars@[j], state: TypedState::Untyped }),
            decreases og_len - i,
        {
            styled.push(StyledChar::new(chars[i]));
            i += 1;
        }
        proof {
            assert(styled@ =~= fresh_chars(chars@));
        }
        StyledWord { chars: styled, og_len }
    }

    pub fn from_string(chars: &str) -> (w: Self)
        ensures
            w.og_len == chars@.len(),
            w.chars@ == fresh_chars(chars@),
    {
        let n = chars.unicode_len();
        let mut collected: Vec<char> = Vec::new();
        let mut i: usize = 0;
        while i < n
            invariant
                n == chars@.len(),
                i <= n,
                collected@.len() == i,
                forall|j: int| 0 <= j < i ==> (#[trigger] collected@[j]) == chars@[j],
            decreases n - i,
        {
            collected.push(chars.get_char(i));
            i += 1;
        }
        proof {
            assert(collected@ =~= chars@);
        }
        StyledWord::from_chars(collected)
    }

    /// Append a user-introduced slot. This is a raw building block: the
    /// cursor is responsible for only appending extra-mistype characters and
    /// for respecting the extra-character bound.
    pub fn append_char(&mut self, ch: StyledChar)
        ensures
            final(self).chars@ == old(self).chars@.push(ch),
            final(self).og_len == old(self).og_len,
    {
        self.chars.push(ch)
    }

    /// The slot at `index`, if the word has one there; `None` signals that
    /// the cursor must append rather than mutate.
    pub fn character_at(&self, index: usize) -> (r: Option<StyledChar>)
        ensures
            index < self.chars@.len() ==> r == Some(self.chars@[index as int]),
            index >= self.chars@.len() ==> r is None,
    {
        if index < self.chars.len() {
            Some(self.chars[index])
        } else {
            None
        }
    }

    /// Re-classify the slot at `index`; its value is kept.
    pub fn set_state(&mut self, index: usize, state: TypedState)
        requires
            index < old(self).chars@.len(),
        ensures
            final(self).og_len == old(self).og_len,
            final(self).chars@ == old(self).chars@.update(
                index as int,
                (StyledChar { value: old(self).chars@[index as int].value, state }),
            ),
    {
        let ch = &mut self.chars[index];
        ch.switch_typed_state(state);
    }
}

} // verus!
