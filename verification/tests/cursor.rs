use cliclack::StringCursor;

#[test]
fn a_new_buffer_is_empty() {
    let buffer = StringCursor::default();
    assert!(buffer.is_empty());
    assert_eq!(buffer.len(), 0);
    assert_eq!(buffer.cursor(), 0);
    assert_eq!(buffer.to_string(), "");
}

#[test]
fn insert_moves_the_cursor_past_the_character() {
    let mut buffer = StringCursor::default();
    buffer.insert('a');
    buffer.insert('b');
    assert_eq!(buffer.to_string(), "ab");
    assert_eq!(buffer.cursor(), 2);
    assert!(!buffer.is_empty());
}

#[test]
fn insert_goes_in_at_the_cursor() {
    let mut buffer = StringCursor::default();
    buffer.extend("bc");
    assert_eq!(buffer.cursor(), 0);
    buffer.insert('a');
    assert_eq!(buffer.to_string(), "abc");
    assert_eq!(buffer.cursor(), 1);
}

#[test]
fn delete_left_removes_the_character_before_the_cursor() {
    let mut buffer = StringCursor::default();
    buffer.insert('a');
    buffer.insert('b');
    buffer.extend("cd");
    buffer.delete_left();
    assert_eq!(buffer.to_string(), "acd");
    assert_eq!(buffer.cursor(), 1);
}

#[test]
fn delete_left_at_the_start_changes_nothing() {
    let mut buffer = StringCursor::default();
    buffer.delete_left();
    assert_eq!(buffer.to_string(), "");
    assert_eq!(buffer.cursor(), 0);
    buffer.extend("xy");
    buffer.delete_left();
    assert_eq!(buffer.to_string(), "xy");
    assert_eq!(buffer.cursor(), 0);
}

#[test]
fn extend_appends_and_leaves_the_cursor() {
    let mut buffer = StringCursor::default();
    buffer.insert('a');
    buffer.extend("bc");
    buffer.extend("");
    buffer.extend("d");
    assert_eq!(buffer.to_string(), "abcd");
    assert_eq!(buffer.cursor(), 1);
    assert_eq!(buffer.len(), 4);
}

#[test]
fn extend_then_to_string_gives_the_text_back() {
    for text in ["", "plain", "two words", "naïve café", "日本語", "tab\tand\nbreak", "🦀 crab"] {
        let mut buffer = StringCursor::default();
        buffer.extend(text);
        assert_eq!(buffer.to_string(), text);
    }
}

#[test]
fn clear_empties_the_buffer() {
    let mut buffer = StringCursor::default();
    buffer.insert('a');
    buffer.extend("bc");
    buffer.clear();
    assert!(buffer.is_empty());
    assert_eq!(buffer.cursor(), 0);
    assert_eq!(buffer.to_string(), "");
}

#[test]
fn characters_of_several_bytes_are_edited_whole() {
    let mut buffer = StringCursor::default();
    buffer.insert('é');
    buffer.insert('日');
    buffer.insert('🦀');
    assert_eq!(buffer.len(), 3);
    assert_eq!(buffer.cursor(), 3);
    assert_eq!(buffer.to_string(), "é日🦀");
    buffer.delete_left();
    assert_eq!(buffer.to_string(), "é日");
    buffer.delete_left();
    assert_eq!(buffer.to_string(), "é");
    assert_eq!(buffer.cursor(), 1);
}

#[test]
fn the_cursor_stays_within_the_text_through_any_edits() {
    let mut buffer = StringCursor::default();
    let mut seed: u32 = 12345;
    for _ in 0..500 {
        seed = seed.wrapping_mul(1103515245).wrapping_add(12345);
        if (seed >> 16) % 3 == 0 {
            buffer.delete_left();
        } else {
            buffer.insert(if (seed >> 8) % 2 == 0 { 'x' } else { 'ß' });
        }
        assert!(buffer.cursor() <= buffer.len());
        assert_eq!(buffer.to_string().chars().count(), buffer.len());
    }
}

#[test]
fn a_clone_is_a_buffer_of_its_own() {
    let mut buffer = StringCursor::default();
    buffer.insert('a');
    let mut copy = buffer.clone();
    copy.insert('b');
    assert_eq!(buffer.to_string(), "a");
    assert_eq!(copy.to_string(), "ab");
}
