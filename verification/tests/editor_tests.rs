//! Tests for the line editor and the absolute-column cursor helpers.

use procdash::editor::{
    delete_previous_character, navigate_left_input, navigate_right_input, EditorState,
};

fn buffer_text(e: &EditorState) -> String {
    e.buffer.iter().collect()
}

#[test]
fn begin_seeds_text_and_cursor() {
    let e = EditorState::begin("Search: ", "chrome");
    assert_eq!(e.prefix, "Search: ");
    assert_eq!(buffer_text(&e), "chrome");
    assert_eq!(e.cursor_offset, 6);
    assert_eq!(e.input_start(), 8);
}

#[test]
fn insert_then_delete_round_trip() {
    // inserting then deleting the same character restores buffer and cursor
    let mut e = EditorState::begin(":", "hello");
    e.move_left();
    e.move_left();
    assert_eq!(e.cursor_offset, 3);
    e.insert_char('X');
    assert_eq!(buffer_text(&e), "helXlo");
    assert_eq!(e.cursor_offset, 4);
    e.delete_before_cursor();
    assert_eq!(buffer_text(&e), "hello");
    assert_eq!(e.cursor_offset, 3);
}

#[test]
fn insert_at_every_position_round_trips() {
    for start in 0..=5 {
        let mut e = EditorState::begin(":", "abcde");
        while e.cursor_offset > start {
            e.move_left();
        }
        e.insert_char('!');
        e.delete_before_cursor();
        assert_eq!(buffer_text(&e), "abcde");
        assert_eq!(e.cursor_offset, start);
    }
}

#[test]
fn delete_at_start_is_a_no_op() {
    let mut e = EditorState::begin(":", "ab");
    while e.cursor_offset > 0 {
        e.move_left();
    }
    e.delete_before_cursor();
    assert_eq!(buffer_text(&e), "ab");
    assert_eq!(e.cursor_offset, 0);
}

#[test]
fn cursor_is_clamped_to_the_text() {
    let mut e = EditorState::begin(":", "ab");
    e.move_right();
    e.move_right();
    assert_eq!(e.cursor_offset, 2, "the cursor stops at the end of the text");
    e.move_left();
    e.move_left();
    e.move_left();
    assert_eq!(e.cursor_offset, 0, "the cursor stops at the start of the text");
}

#[test]
fn commit_and_line_text() {
    let mut e = EditorState::begin(":", "");
    e.insert_char('h');
    e.insert_char('i');
    assert_eq!(e.commit(), "hi");
    assert_eq!(e.line_text(), ":hi");
    assert_eq!(e.suffix_from(1), "i");
}

#[test]
fn delete_previous_character_moves_cursor_back() {
    let mut input: Vec<char> = "abc".chars().collect();
    // prompt ":" occupies column 0; the input starts at column 1
    let new_pos = delete_previous_character(&mut input, 3, 1);
    assert_eq!(new_pos, 2);
    assert_eq!(input.iter().collect::<String>(), "ac");
}

#[test]
fn delete_previous_character_at_input_start_is_a_no_op() {
    let mut input: Vec<char> = "abc".chars().collect();
    let new_pos = delete_previous_character(&mut input, 1, 1);
    assert_eq!(new_pos, 1);
    assert_eq!(input.iter().collect::<String>(), "abc");
}

#[test]
fn navigate_left_clamps_at_input_start() {
    assert_eq!(navigate_left_input(5, 1), 4);
    assert_eq!(navigate_left_input(1, 1), 1);
}

#[test]
fn navigate_right_clamps_at_text_end() {
    let input: Vec<char> = "ab".chars().collect();
    assert_eq!(navigate_right_input(&input, 1, 1), 2);
    assert_eq!(navigate_right_input(&input, 3, 1), 3);
    let empty: Vec<char> = Vec::new();
    assert_eq!(navigate_right_input(&empty, 1, 1), 1, "no text: the cursor stays put");
}
