use toqst_typer::session::InputEvent;
use toqst_typer::session::Session;
use toqst_typer::session::TypingEvent;
use toqst_typer::session::TYPING_TIME_LIMIT_SECS;
use toqst_typer::word::TypedState;

fn session_over(words: &[&str]) -> Session {
    Session::new(words.iter().map(|w| w.to_string()).collect())
}

#[test]
fn new_session_is_idle_and_fresh() {
    let s = session_over(&["cat", "dog"]);
    assert_eq!(s.user_typing, TypingEvent::AFK);
    assert!(!s.should_exit);
    assert_eq!(s.cursor.word_idx, 0);
    assert_eq!(s.cursor.words.len(), 2);
    for cw in &s.cursor.words {
        assert_eq!(cw.cursor_idx, 0);
        for ch in &cw.word.chars {
            assert_eq!(ch.state, TypedState::Untyped);
        }
    }
}

#[test]
fn first_character_starts_the_clock_once() {
    let mut s = session_over(&["cat"]);
    s.handle_event(InputEvent::Character('c'), 100);
    assert_eq!(s.user_typing, TypingEvent::TYPED(100));
    s.handle_event(InputEvent::Character('a'), 150);
    assert_eq!(s.user_typing, TypingEvent::TYPED(100));
}

#[test]
fn space_also_starts_the_clock() {
    let mut s = session_over(&["cat", "dog"]);
    s.handle_event(InputEvent::Space, 42);
    assert_eq!(s.user_typing, TypingEvent::TYPED(42));
    assert_eq!(s.cursor.word_idx, 1);
}

#[test]
fn backspace_does_not_start_the_clock() {
    let mut s = session_over(&["cat"]);
    s.handle_event(InputEvent::Backspace, 7);
    assert_eq!(s.user_typing, TypingEvent::AFK);
}

#[test]
fn character_event_types_into_current_word() {
    let mut s = session_over(&["cat"]);
    s.handle_event(InputEvent::Character('c'), 1);
    s.handle_event(InputEvent::Character('x'), 2);
    let cw = &s.cursor.words[0];
    assert_eq!(cw.cursor_idx, 2);
    assert_eq!(cw.word.chars[0].state, TypedState::Correct);
    assert_eq!(cw.word.chars[1].state, TypedState::Mistype);
}

#[test]
fn quit_marks_session_for_exit_and_stays() {
    let mut s = session_over(&["cat"]);
    s.handle_event(InputEvent::Quit, 5);
    assert!(s.should_exit);
    s.update_should_exit(6);
    assert!(s.should_exit);
}

#[test]
fn idle_session_never_times_out() {
    let s = session_over(&["cat"]);
    assert!(!s.is_typing_time_done(1_000_000));
}

#[test]
fn timeout_strictly_after_limit() {
    let mut s = session_over(&["cat"]);
    s.handle_event(InputEvent::Character('c'), 100);
    assert!(!s.is_typing_time_done(100));
    assert!(!s.is_typing_time_done(100 + TYPING_TIME_LIMIT_SECS));
    assert!(s.is_typing_time_done(100 + TYPING_TIME_LIMIT_SECS + 1));
}

#[test]
fn update_should_exit_on_completion() {
    let mut s = session_over(&["hi"]);
    s.update_should_exit(0);
    assert!(!s.should_exit);
    s.handle_event(InputEvent::Space, 1);
    s.update_should_exit(2);
    assert!(s.should_exit);
}

#[test]
fn update_should_exit_on_timeout() {
    let mut s = session_over(&["cat"]);
    s.handle_event(InputEvent::Character('c'), 10);
    s.update_should_exit(10 + TYPING_TIME_LIMIT_SECS);
    assert!(!s.should_exit);
    s.update_should_exit(10 + TYPING_TIME_LIMIT_SECS + 1);
    assert!(s.should_exit);
}

#[test]
fn completion_independent_of_correctness() {
    let mut s = session_over(&["ab", "cd"]);
    s.handle_event(InputEvent::Character('x'), 1);
    s.handle_event(InputEvent::Space, 2);
    s.handle_event(InputEvent::Space, 3);
    s.update_should_exit(4);
    assert!(s.should_exit);
    assert_eq!(s.cursor.word_idx, 2);
}
