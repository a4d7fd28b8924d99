use intrack::feat::tui::{
    Event, EventPropagation, KeyCode, KeyEvent, KeyEventKind, KeyModifiers,
};
use intrack::feat::tui_widget::{CursorParts, InputBoxState};

fn press(code: KeyCode) -> Event {
    Event::Key(KeyEvent::new(code, KeyModifiers::none()))
}

fn typed(text: &str) -> InputBoxState {
    let mut state = InputBoxState::default();
    for ch in text.chars() {
        assert_eq!(state.handle_input(&press(KeyCode::Char(ch))), EventPropagation::Stop);
    }
    state
}

fn parts(before: &str, at: &str, after: &str) -> CursorParts {
    CursorParts { before: before.to_string(), at: at.to_string(), after: after.to_string() }
}

#[test]
fn typing_puts_characters_at_the_cursor() {
    let mut state = typed("abc");
    assert_eq!(state.text(), "abc");
    assert_eq!(state.cursor(), 3);
    state.handle_input(&press(KeyCode::Left));
    state.handle_input(&press(KeyCode::Left));
    state.handle_input(&press(KeyCode::Char('X')));
    assert_eq!(state.text(), "aXbc");
    assert_eq!(state.cursor(), 2);
}

#[test]
fn backspace_takes_the_character_before_the_cursor() {
    let mut state = typed("héllo");
    assert_eq!(state.handle_input(&press(KeyCode::Backspace)), EventPropagation::Stop);
    assert_eq!(state.text(), "héll");
    assert_eq!(state.cursor(), 4);
    state.handle_input(&press(KeyCode::Left));
    state.handle_input(&press(KeyCode::Left));
    state.handle_input(&press(KeyCode::Backspace));
    assert_eq!(state.text(), "hll");
    assert_eq!(state.cursor(), 1);
    state.handle_input(&press(KeyCode::Backspace));
    assert_eq!(state.text(), "ll");
    assert_eq!(state.cursor(), 0);
    assert_eq!(state.handle_input(&press(KeyCode::Backspace)), EventPropagation::Stop);
    assert_eq!(state.text(), "ll");
    assert_eq!(state.cursor(), 0);
}

#[test]
fn backspace_on_an_empty_box_changes_nothing() {
    let mut state = InputBoxState::default();
    assert_eq!(state.handle_input(&press(KeyCode::Backspace)), EventPropagation::Stop);
    assert_eq!(state.text(), "");
    assert_eq!(state.cursor(), 0);
}

#[test]
fn arrows_keep_the_cursor_within_the_text() {
    let mut state = typed("ab");
    assert_eq!(state.handle_input(&press(KeyCode::Right)), EventPropagation::Stop);
    assert_eq!(state.cursor(), 2);
    state.handle_input(&press(KeyCode::Left));
    state.handle_input(&press(KeyCode::Left));
    assert_eq!(state.handle_input(&press(KeyCode::Left)), EventPropagation::Stop);
    assert_eq!(state.cursor(), 0);
    state.handle_input(&press(KeyCode::Right));
    assert_eq!(state.cursor(), 1);
}

#[test]
fn other_events_are_passed_on_unchanged() {
    let mut state = typed("ab");
    let events = [
        press(KeyCode::Enter),
        press(KeyCode::Esc),
        press(KeyCode::Up),
        Event::Tick,
        Event::Paste("zz".to_string()),
        Event::Key(KeyEvent {
            code: KeyCode::Char('x'),
            modifiers: KeyModifiers::none(),
            kind: KeyEventKind::Release,
        }),
        Event::Key(KeyEvent {
            code: KeyCode::Backspace,
            modifiers: KeyModifiers::none(),
            kind: KeyEventKind::Repeat,
        }),
    ];
    for event in events {
        assert_eq!(state.handle_input(&event), EventPropagation::Continue);
        assert_eq!(state.text(), "ab");
        assert_eq!(state.cursor(), 2);
    }
}

#[test]
fn set_text_puts_the_cursor_behind_the_text() {
    let mut state = typed("abc");
    state.set_focused(true);
    state.set_text("hello world");
    assert_eq!(state.text(), "hello world");
    assert_eq!(state.cursor(), 11);
    assert!(state.is_focused());
    state.set_focused(false);
    assert!(!state.is_focused());
    assert_eq!(state.text(), "hello world");
}

#[test]
fn the_text_of_the_box_is_its_first_line() {
    let mut state = InputBoxState::default();
    state.set_text("one\ntwo");
    assert_eq!(state.text(), "one\n");
    assert_eq!(state.cursor(), 7);
}

#[test]
fn the_cursor_splits_the_text_in_three() {
    let mut state = typed("abc");
    assert_eq!(state.format_text_with_cursor(), parts("abc", " ", ""));
    state.handle_input(&press(KeyCode::Left));
    assert_eq!(state.format_text_with_cursor(), parts("ab", "c", ""));
    state.handle_input(&press(KeyCode::Left));
    state.handle_input(&press(KeyCode::Left));
    assert_eq!(state.format_text_with_cursor(), parts("", "a", "bc"));
    assert_eq!(InputBoxState::default().format_text_with_cursor(), parts("", " ", ""));
}

#[test]
fn a_copy_of_the_box_is_its_own() {
    let mut state = typed("ab");
    let copy = state.clone();
    state.handle_input(&press(KeyCode::Char('c')));
    assert_eq!(copy.text(), "ab");
    assert_eq!(copy.cursor(), 2);
    assert_eq!(state.text(), "abc");
}
