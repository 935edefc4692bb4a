use kappa::buffer::{is_line_break, RopeBuffer, TextOperation};

fn content(buffer: &RopeBuffer) -> String {
    buffer.chunks().concat()
}

#[test]
fn empty_store_has_one_empty_line() {
    let buffer = RopeBuffer::new();
    assert_eq!(buffer.len_lines(), 1);
    assert_eq!(buffer.len_chars(), 0);
    assert_eq!(buffer.line_len(0), 0);
    assert_eq!(buffer.line(0), Some(String::new()));
    assert_eq!(buffer.line(1), None);
    assert_eq!(buffer.line_to_char(0), 0);
    assert_eq!(buffer.line_to_char(1), 0);
    assert_eq!(buffer.char_to_line(0), 0);
}

#[test]
fn default_store_is_empty() {
    let buffer = RopeBuffer::default();
    assert_eq!(buffer.len_chars(), 0);
    assert_eq!(buffer.len_lines(), 1);
}

#[test]
fn lines_and_offsets_of_a_small_text() {
    let buffer = RopeBuffer::from_string("ab\ncd\r\n\nxyz");
    assert_eq!(buffer.len_chars(), 11);
    assert_eq!(buffer.len_lines(), 4);
    assert_eq!(buffer.line_to_char(0), 0);
    assert_eq!(buffer.line_to_char(1), 3);
    assert_eq!(buffer.line_to_char(2), 7);
    assert_eq!(buffer.line_to_char(3), 8);
    assert_eq!(buffer.line_to_char(4), 11);
    assert_eq!(buffer.line_len(0), 2);
    assert_eq!(buffer.line_len(1), 2);
    assert_eq!(buffer.line_len(2), 0);
    assert_eq!(buffer.line_len(3), 3);
    assert_eq!(buffer.line_len(4), 0);
    assert_eq!(buffer.line(0), Some("ab\n".to_string()));
    assert_eq!(buffer.line(1), Some("cd\r\n".to_string()));
    assert_eq!(buffer.line(2), Some("\n".to_string()));
    assert_eq!(buffer.line(3), Some("xyz".to_string()));
    assert_eq!(buffer.line(4), None);
    assert_eq!(buffer.char_to_line(0), 0);
    assert_eq!(buffer.char_to_line(2), 0);
    assert_eq!(buffer.char_to_line(3), 1);
    assert_eq!(buffer.char_to_line(6), 1);
    assert_eq!(buffer.char_to_line(7), 2);
    assert_eq!(buffer.char_to_line(8), 3);
    assert_eq!(buffer.char_to_line(11), 3);
}

#[test]
fn text_that_ends_in_a_break_has_an_empty_last_line() {
    let buffer = RopeBuffer::from_string("one\ntwo\n");
    assert_eq!(buffer.len_lines(), 3);
    assert_eq!(buffer.line(2), Some(String::new()));
    assert_eq!(buffer.line_len(2), 0);
    assert_eq!(buffer.line_to_char(2), 8);
    assert_eq!(buffer.char_to_line(8), 2);
}

#[test]
fn every_line_start_lies_on_its_line() {
    let buffer = RopeBuffer::from_string("a\r\nbb\rccc\n\n\u{2028}d\u{0085}\u{000B}e\u{000C}\u{2029}");
    let lines = buffer.len_lines();
    assert_eq!(lines, 10);
    for line in 0..lines {
        let start = buffer.line_to_char(line);
        assert_eq!(buffer.char_to_line(start), line);
    }
}

#[test]
fn every_unicode_line_break_ends_a_line() {
    for terminator in ["\n", "\u{000B}", "\u{000C}", "\r", "\u{0085}", "\u{2028}", "\u{2029}", "\r\n"] {
        let text = format!("ab{}cd", terminator);
        let buffer = RopeBuffer::from_string(&text);
        let width = terminator.chars().count();
        assert_eq!(buffer.len_lines(), 2);
        assert_eq!(buffer.line_len(0), 2);
        assert_eq!(buffer.line_len(1), 2);
        assert_eq!(buffer.line_to_char(1), 2 + width);
        assert_eq!(buffer.line(0), Some(format!("ab{}", terminator)));
        assert_eq!(buffer.char_to_line(2), 0);
        assert_eq!(buffer.char_to_line(2 + width), 1);
    }
}

#[test]
fn break_characters_are_the_seven_of_the_line_model() {
    for c in ['\n', '\u{000B}', '\u{000C}', '\r', '\u{0085}', '\u{2028}', '\u{2029}'] {
        assert!(is_line_break(c));
    }
    for c in ['a', ' ', '\t', '\u{0084}', '\u{2027}', '\u{202A}', '\u{0009}', '\u{000E}'] {
        assert!(!is_line_break(c));
    }
}

#[test]
fn carriage_return_and_line_feed_are_one_break() {
    let buffer = RopeBuffer::from_string("a\r\nb");
    assert_eq!(buffer.len_lines(), 2);
    assert_eq!(buffer.char_to_line(1), 0);
    // between the carriage return and the line feed the break has not ended
    assert_eq!(buffer.char_to_line(2), 0);
    assert_eq!(buffer.char_to_line(3), 1);
    assert_eq!(buffer.line_to_char(1), 3);
    assert_eq!(buffer.line_len(0), 1);
}

#[test]
fn line_feed_then_carriage_return_are_two_breaks() {
    let buffer = RopeBuffer::from_string("a\n\rb");
    assert_eq!(buffer.len_lines(), 3);
    assert_eq!(buffer.line_to_char(1), 2);
    assert_eq!(buffer.line_to_char(2), 3);
    assert_eq!(buffer.line_len(1), 0);
}

#[test]
fn lone_carriage_return_at_the_end_is_a_break() {
    let buffer = RopeBuffer::from_string("ab\r");
    assert_eq!(buffer.len_lines(), 2);
    assert_eq!(buffer.line_len(0), 2);
    assert_eq!(buffer.line_to_char(1), 3);
    assert_eq!(buffer.char_to_line(3), 1);
}

#[test]
fn line_length_counts_characters_not_bytes() {
    let buffer = RopeBuffer::from_string("h\u{00e9}llo \u{4e16}\u{754c}\nx");
    assert_eq!(buffer.line_len(0), 8);
    assert_eq!(buffer.len_chars(), 10);
    assert_eq!(buffer.line_to_char(1), 9);
}

#[test]
fn insert_char_puts_the_character_at_the_offset() {
    let mut buffer = RopeBuffer::from_string("ac");
    buffer.insert_char(1, 'b');
    assert_eq!(content(&buffer), "abc");
    buffer.insert_char(3, 'd');
    assert_eq!(content(&buffer), "abcd");
    buffer.insert_char(0, '_');
    assert_eq!(content(&buffer), "_abcd");
}

#[test]
fn insert_puts_the_text_at_the_offset() {
    let mut buffer = RopeBuffer::from_string("hello!");
    buffer.insert(5, ", world");
    assert_eq!(content(&buffer), "hello, world!");
    buffer.insert(0, "");
    assert_eq!(content(&buffer), "hello, world!");
}

#[test]
fn insert_then_remove_restores_the_text() {
    let initial = "ab\ncd\r\nef";
    for offset in 0..=initial.chars().count() {
        for c in ['x', '\n', '\r', '\u{2028}'] {
            let mut buffer = RopeBuffer::from_string(initial);
            buffer.insert_char(offset, c);
            assert_eq!(buffer.len_chars(), 10);
            buffer.remove(offset..offset + 1);
            assert_eq!(content(&buffer), initial);
        }
    }
}

#[test]
fn remove_takes_the_range_out() {
    let mut buffer = RopeBuffer::from_string("hello world");
    buffer.remove(5..11);
    assert_eq!(content(&buffer), "hello");
    buffer.remove(0..1);
    assert_eq!(content(&buffer), "ello");
    buffer.remove(0..4);
    assert_eq!(content(&buffer), "");
    assert_eq!(buffer.len_lines(), 1);
}

#[test]
fn remove_of_an_invalid_range_changes_nothing() {
    let mut buffer = RopeBuffer::from_string("hello");
    buffer.remove(2..2);
    assert_eq!(content(&buffer), "hello");
    buffer.remove(3..1);
    assert_eq!(content(&buffer), "hello");
    buffer.remove(2..6);
    assert_eq!(content(&buffer), "hello");
    buffer.remove(7..9);
    assert_eq!(content(&buffer), "hello");
}

#[test]
fn get_slice_gives_the_range_or_nothing() {
    let buffer = RopeBuffer::from_string("hello world");
    assert_eq!(buffer.get_slice(0, 5), "hello");
    assert_eq!(buffer.get_slice(6, 11), "world");
    assert_eq!(buffer.get_slice(3, 3), "");
    assert_eq!(buffer.get_slice(5, 2), "");
    assert_eq!(buffer.get_slice(6, 12), "");
}

#[test]
fn chunks_together_are_the_text() {
    let mut text = String::new();
    for i in 0..2000 {
        text.push_str(&format!("line number {}\n", i));
    }
    let buffer = RopeBuffer::from_string(&text);
    let parts = buffer.chunks();
    assert!(parts.len() > 1);
    assert_eq!(parts.concat(), text);
}

#[test]
fn large_text_keeps_line_addressing() {
    let mut text = String::new();
    for i in 0..3000 {
        text.push_str(&format!("row {}\r\n", i));
    }
    let buffer = RopeBuffer::from_string(&text);
    assert_eq!(buffer.len_lines(), 3001);
    let mut offset = 0;
    for i in 0..3000 {
        let row = format!("row {}", i);
        assert_eq!(buffer.line_to_char(i), offset);
        assert_eq!(buffer.line_len(i), row.len());
        assert_eq!(buffer.char_to_line(offset), i);
        assert_eq!(buffer.char_to_line(offset + row.len() + 1), i);
        offset += row.len() + 2;
    }
    assert_eq!(buffer.line_to_char(3000), offset);
    assert_eq!(buffer.line_to_char(3001), offset);
}

#[test]
fn text_operations_edit_by_offset() {
    let mut buffer = RopeBuffer::new();
    TextOperation::insert_text(&mut buffer, 0, "hllo");
    TextOperation::insert_char(&mut buffer, 1, 'e');
    assert_eq!(content(&buffer), "hello");
    TextOperation::delete_range(&mut buffer, 1, 3);
    assert_eq!(content(&buffer), "hlo");
    TextOperation::delete_range(&mut buffer, 2, 9);
    assert_eq!(content(&buffer), "hlo");
}

#[test]
fn delete_char_past_the_end_changes_nothing() {
    let mut buffer = RopeBuffer::from_string("abc");
    TextOperation::delete_char(&mut buffer, 3);
    assert_eq!(content(&buffer), "abc");
    TextOperation::delete_char(&mut buffer, 1);
    assert_eq!(content(&buffer), "ac");
}
