//! Scenario tests for the mode state machine: command commit, search
//! commit and cancel, navigation keys, and the editor routing.

use procdash::machine::{AppState, Key, UiEffect};
use procdash::state::{Mode, SortDirection};

fn typed(st: &mut AppState, text: &str) {
    for c in text.chars() {
        let _ = st.handle_key(Key::Char(c));
    }
}

#[test]
fn quit_command_exits() {
    // typing "q" then Enter while in INPUT mode transitions to EXIT
    let mut st = AppState::new();
    let _ = st.handle_key(Key::Char(':'));
    assert_eq!(st.mode, Mode::INPUT);
    typed(&mut st, "q");
    let eff = st.handle_key(Key::Enter);
    assert_eq!(st.mode, Mode::EXIT);
    assert_eq!(eff, UiEffect::Quiet);
}

#[test]
fn search_escape_keeps_filter() {
    // entering SEARCH with a prior filter and pressing Esc leaves it alone
    let mut st = AppState::new();
    let _ = st.handle_key(Key::Char(':'));
    typed(&mut st, "s");
    let _ = st.handle_key(Key::Enter);
    assert_eq!(st.mode, Mode::SEARCH);
    typed(&mut st, "chrome");
    let _ = st.handle_key(Key::Enter);
    assert_eq!(st.mode, Mode::PRINT);
    assert_eq!(st.view.filter_text, "chrome");

    st.switch_mode(Mode::SEARCH);
    let e = st.editor.as_ref().expect("search mode carries an editor");
    assert_eq!(e.prefix, "Search: ");
    assert_eq!(e.buffer.iter().collect::<String>(), "chrome");
    typed(&mut st, "xxx");
    let _ = st.handle_key(Key::Esc);
    assert_eq!(st.mode, Mode::PRINT);
    assert_eq!(st.view.filter_text, "chrome");
}

#[test]
fn search_enter_commits_filter() {
    let mut st = AppState::new();
    st.switch_mode(Mode::SEARCH);
    typed(&mut st, "fire");
    let _ = st.handle_key(Key::Enter);
    assert_eq!(st.mode, Mode::PRINT);
    assert_eq!(st.view.filter_text, "fire");
    assert!(st.editor.is_none());
}

#[test]
fn navigation_keys_adjust_view() {
    let mut st = AppState::new();
    assert_eq!(st.view.selected_column, 0);
    let _ = st.handle_key(Key::Left);
    assert_eq!(st.view.selected_column, 0, "left is clamped at the first column");
    let _ = st.handle_key(Key::Right);
    let _ = st.handle_key(Key::Right);
    assert_eq!(st.view.selected_column, 2);
    for _ in 0..10 {
        let _ = st.handle_key(Key::Right);
    }
    assert_eq!(st.view.selected_column, 4, "right is clamped at the last column");
    let _ = st.handle_key(Key::Down);
    assert_eq!(st.view.sort_direction, SortDirection::Descending);
    let _ = st.handle_key(Key::Up);
    assert_eq!(st.view.sort_direction, SortDirection::Ascending);
}

#[test]
fn navigate_mode_uses_same_keys() {
    let mut st = AppState::new();
    let _ = st.handle_key(Key::Char(':'));
    typed(&mut st, "n");
    let _ = st.handle_key(Key::Enter);
    assert_eq!(st.mode, Mode::NAVIGATE);
    let _ = st.handle_key(Key::Right);
    assert_eq!(st.view.selected_column, 1);
    let _ = st.handle_key(Key::Down);
    assert_eq!(st.view.sort_direction, SortDirection::Descending);
}

#[test]
fn help_shows_and_clears_line() {
    let mut st = AppState::new();
    let _ = st.handle_key(Key::Char(':'));
    typed(&mut st, "h");
    let eff = st.handle_key(Key::Enter);
    assert_eq!(eff, UiEffect::ShowHelp);
    assert_eq!(st.mode, Mode::INPUT);
    let e = st.editor.as_ref().expect("help keeps the command line open");
    assert!(e.buffer.is_empty());
    assert_eq!(e.cursor_offset, 0);
}

#[test]
fn unknown_command_shows_error_and_clears_line() {
    let mut st = AppState::new();
    let _ = st.handle_key(Key::Char(':'));
    typed(&mut st, "zz");
    let eff = st.handle_key(Key::Enter);
    assert_eq!(eff, UiEffect::ShowError);
    assert_eq!(st.mode, Mode::INPUT);
    let e = st.editor.as_ref().expect("an unknown command keeps the command line open");
    assert!(e.buffer.is_empty());
}

#[test]
fn enter_with_empty_buffer_stays_in_input() {
    let mut st = AppState::new();
    let _ = st.handle_key(Key::Char(':'));
    let eff = st.handle_key(Key::Enter);
    assert_eq!(eff, UiEffect::Quiet);
    assert_eq!(st.mode, Mode::INPUT);
}

#[test]
fn escape_in_input_returns_to_print() {
    let mut st = AppState::new();
    let _ = st.handle_key(Key::Char(':'));
    typed(&mut st, "qqq");
    let _ = st.handle_key(Key::Esc);
    assert_eq!(st.mode, Mode::PRINT);
    assert!(st.editor.is_none());
}

#[test]
fn commands_are_case_sensitive() {
    let mut st = AppState::new();
    let _ = st.handle_key(Key::Char(':'));
    typed(&mut st, "Q");
    let eff = st.handle_key(Key::Enter);
    assert_eq!(eff, UiEffect::ShowError);
    assert_eq!(st.mode, Mode::INPUT);
}

#[test]
fn space_key_inserts_literal_space() {
    let mut st = AppState::new();
    st.switch_mode(Mode::SEARCH);
    let _ = st.handle_key(Key::Char('a'));
    let _ = st.handle_key(Key::Char(' '));
    let _ = st.handle_key(Key::Char('b'));
    let _ = st.handle_key(Key::Enter);
    assert_eq!(st.view.filter_text, "a b");
}

#[test]
fn exit_mode_ignores_keys() {
    let mut st = AppState::new();
    st.switch_mode(Mode::EXIT);
    let eff = st.handle_key(Key::Char(':'));
    assert_eq!(eff, UiEffect::Quiet);
    assert_eq!(st.mode, Mode::EXIT);
}
