//! Session lifecycle: the ordered word list with its cursor, the
//! typing-activity marker that records when the user first typed, and the
//! elapsed-time check that ends the session. The clock is injected — every
//! time-dependent function takes the current reading in seconds — so the
//! checks stay pure and testable.

use vstd::prelude::*;

use crate::cursor::CursorWord;
use crate::cursor::UserCursor;
use crate::cursor::cursor_deletes;
use crate::cursor::cursor_presses;
use crate::cursor::cursor_spaces;
use crate::cursor::fresh_word;
use crate::word::EXTRA_CHAR_BOUNDARY;
use crate::word::StyledWord;

verus! {

broadcast use vstd::group_vstd_default;

/// Seconds after the first keystroke at which the session times out.
pub const TYPING_TIME_LIMIT_SECS: u64 = 20;

/// Whether the user has started typing. Once typing begins the marker holds
/// the clock reading, in seconds, observed at the first character or space
/// keystroke; it is set exactly once.
#[derive(Clone, Copy, Debug, PartialEq, Eq, Structural)]
pub enum TypingEvent {
    AFK,
    TYPED(u64),
}

/// One discrete input event, already decoded by the host terminal.
#[derive(Clone, Copy, Debug, PartialEq, Eq, Structural)]
pub enum InputEvent {
    /// A printable, non-space character was typed.
    Character(char),
    Space,
    Backspace,
    Quit,
}

/// The typing-activity marker after a character or space keystroke at clock
/// reading `now`: an idle marker becomes active at `now`; an active marker
/// is never changed again.
pub open spec fn activated(prev: TypingEvent, now: u64) -> TypingEvent {
    match prev {
        TypingEvent::AFK => TypingEvent::TYPED(now),
        TypingEvent::TYPED(start) => TypingEvent::TYPED(start),
    }
}

/// A typing session: its word list with the cursor, the typing-activity
/// marker, and the exit flag.
#[derive(Debug)]
pub struct Session {
    pub user_typing: TypingEvent,
    pub should_exit: bool,
    pub cursor: UserCursor,
}

impl Session {
    pub open spec fn wf(self) -> bool {
        self.cursor.wf()
    }

    /// The cursor still rests on a word of the list; character, space and
    /// backspace events may only be fed to the session while this holds.
    pub open spec fn words_remain(self) -> bool {
        self.cursor.word_idx < self.cursor.words@.len()
    }

    /// Clock readings handed to the session never precede the recorded
    /// start of typing.
    pub open spec fn clock_valid(self, now: u64) -> bool {
        self.user_typing matches TypingEvent::TYPED(start) ==> now >= start
    }

    /// Create a session for the given target words. Every word starts fully
    /// untyped with its own cursor offset at zero, the activity marker is
    /// idle, and the session is not complete.
    pub fn new(words: Vec<String>) -> (s: Session)
        requires
            forall|i: int|
                0 <= i < words@.len() ==> (#[trigger] words@[i])@.len() + EXTRA_CHAR_BOUNDARY
                    <= usize::MAX,
        ensures
            s.wf(),
            s.user_typing == TypingEvent::AFK,
            s.should_exit == false,
            s.cursor.word_idx == 0,
            s.cursor.words@.len() == words@.len(),
            forall|i: int|
                0 <= i < words@.len() ==> (#[trigger] s.cursor.words@[i])@ == fresh_word(
                    words@[i]@,
                ),
    {
        let mut cursor_words: Vec<CursorWord> = Vec::new();
        let mut i: usize = 0;
        while i < words.len()
            invariant
                i <= words@.len(),
                cursor_words@.len() == i,
                forall|j: int|
                    0 <= j < words@.len() ==> (#[trigger] words@[j])@.len() + EXTRA_CHAR_BOUNDARY
                        <= usize::MAX,
                forall|j: int|
                    0 <= j < i ==> (#[trigger] cursor_words@[j])@ == fresh_word(words@[j]@),
                forall|j: int| 0 <= j < i ==> (#[trigger] cursor_words@[j]).wf(),
            decreases words@.len() - i,
        {
            let styled = StyledWord::from_string(words[i].as_str());
            cursor_words.push(CursorWord::new(styled));
            i += 1;
        }
        Session {
            user_typing: TypingEvent::AFK,
            should_exit: false,
            cursor: UserCursor { word_idx: 0, words: cursor_words },
        }
    }

    /// Feed one decoded input event to the session, with the clock reading
    /// `now` in seconds. A character keystroke is applied to the word under
    /// the cursor, a space advances to the next word, a backspace steps
    /// back, and a quit request marks the session for exit. The first
    /// character or space keystroke switches the activity marker from idle
    /// to active at `now`.
    pub fn handle_event(&mut self, event: InputEvent, now: u64)
        requires
            old(self).wf(),
            !(event is Quit) ==> old(self).words_remain(),
        ensures
            final(self).wf(),
            final(self).cursor.words@.len() == old(self).cursor.words@.len(),
            (event matches InputEvent::Character(c) ==> {
                &&& cursor_presses(old(self).cursor, final(self).cursor, c)
                &&& final(self).user_typing == activated(old(self).user_typing, now)
                &&& final(self).should_exit == old(self).should_exit
            }),
            (event is Space ==> {
                &&& cursor_spaces(old(self).cursor, final(self).cursor)
                &&& final(self).user_typing == activated(old(self).user_typing, now)
                &&& final(self).should_exit == old(self).should_exit
            }),
            (event is Backspace ==> {
                &&& cursor_deletes(old(self).cursor, final(self).cursor)
                &&& final(self).user_typing == old(self).user_typing
                &&& final(self).should_exit == old(self).should_exit
            }),
            (event is Quit ==> {
                &&& final(self).cursor == old(self).cursor
                &&& final(self).user_typing == old(self).user_typing
                &&& final(self).should_exit == true
            }),
    {
        match event {
            InputEvent::Character(ch) => {
                self.cursor.handle_key_press(ch);
                if matches!(self.user_typing, TypingEvent::AFK) {
                    self.user_typing = TypingEvent::TYPED(now);
                }
            },
            InputEvent::Space => {
                self.cursor.handle_space_press();
                if matches!(self.user_typing, TypingEvent::AFK) {
                    self.user_typing = TypingEvent::TYPED(now);
                }
            },
            InputEvent::Backspace => {
                self.cursor.handle_delete();
            },
            InputEvent::Quit => {
                self.should_exit = true;
            },
        }
    }

    /// Whether the elapsed-time threshold has passed: the user has started
    /// typing and more than the time limit has elapsed since. Safe to call
    /// redundantly once per loop iteration; it never mutates the session.
    pub fn is_typing_time_done(&self, now: u64) -> (done: bool)
        requires
            self.clock_valid(now),
        ensures
            done == (self.user_typing matches TypingEvent::TYPED(start) && now - start
                > TYPING_TIME_LIMIT_SECS),
    {
        if let TypingEvent::TYPED(start_time) = self.user_typing {
            let elapsed = now - start_time;
            elapsed > TYPING_TIME_LIMIT_SECS
        } else {
            false
        }
    }

    /// Refresh the exit flag once per loop iteration: the session ends when
    /// a quit was requested, when the cursor has advanced past the last
    /// word, or when the elapsed-time threshold has passed — and stays
    /// ended.
    pub fn update_should_exit(&mut self, now: u64)
        requires
            old(self).clock_valid(now),
        ensures
            final(self).cursor == old(self).cursor,
            final(self).user_typing == old(self).user_typing,
            final(self).should_exit == (old(self).should_exit || old(self).cursor.word_idx
                == old(self).cursor.words@.len() || (old(self).user_typing
                matches TypingEvent::TYPED(start) && now - start > TYPING_TIME_LIMIT_SECS)),
    {
        let game_done = self.cursor.is_game_done();
        let time_done = self.is_typing_time_done(now);
        self.should_exit = self.should_exit || game_done || time_done;
    }
}

} // verus!
