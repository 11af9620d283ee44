use toqst_typer::word::StyledChar;
use toqst_typer::word::StyledWord;
use toqst_typer::word::TypedState;
use toqst_typer::word::EXTRA_CHAR_BOUNDARY;

#[test]
fn from_string_starts_untyped() {
    let w = StyledWord::from_string("cat");
    assert_eq!(w.og_len, 3);
    assert_eq!(w.chars.len(), 3);
    let expected = ['c', 'a', 't'];
    for (i, ch) in w.chars.iter().enumerate() {
        assert_eq!(ch.value, expected[i]);
        assert_eq!(ch.state, TypedState::Untyped);
    }
}

#[test]
fn from_chars_matches_input() {
    let w = StyledWord::from_chars(vec!['d', 'o', 'g']);
    assert_eq!(w.og_len, 3);
    assert_eq!(w.chars.len(), 3);
    assert_eq!(w.chars[0].value, 'd');
    assert_eq!(w.chars[1].value, 'o');
    assert_eq!(w.chars[2].value, 'g');
}

#[test]
fn from_string_empty() {
    let w = StyledWord::from_string("");
    assert_eq!(w.og_len, 0);
    assert_eq!(w.chars.len(), 0);
    assert!(w.character_at(0).is_none());
}

#[test]
fn character_at_in_and_out_of_range() {
    let w = StyledWord::from_string("hi");
    let first = w.character_at(0).unwrap();
    assert_eq!(first.value, 'h');
    assert!(w.character_at(2).is_none());
}

#[test]
fn append_char_extends_word() {
    let mut w = StyledWord::from_string("a");
    w.append_char(StyledChar::new_bad_char('z'));
    assert_eq!(w.og_len, 1);
    assert_eq!(w.chars.len(), 2);
    assert_eq!(w.chars[1].value, 'z');
    assert_eq!(w.chars[1].state, TypedState::MistypeExtra);
}

#[test]
fn set_state_keeps_value() {
    let mut w = StyledWord::from_string("ok");
    w.set_state(1, TypedState::Correct);
    assert_eq!(w.chars[1].value, 'k');
    assert_eq!(w.chars[1].state, TypedState::Correct);
    assert_eq!(w.chars[0].state, TypedState::Untyped);
}

#[test]
fn switch_typed_state_changes_only_state() {
    let mut ch = StyledChar::new('q');
    assert_eq!(ch.state, TypedState::Untyped);
    assert_eq!(ch.get_char_data(), 'q');
    ch.switch_typed_state(TypedState::Mistype);
    assert_eq!(ch.state, TypedState::Mistype);
    assert_eq!(ch.get_char_data(), 'q');
}

#[test]
fn extra_char_boundary_is_five() {
    assert_eq!(EXTRA_CHAR_BOUNDARY, 5);
}
