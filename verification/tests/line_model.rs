use kappa::buffer::RopeBuffer;
use kappa::cursor::CursorPosition;
use kappa::editing::{DeleteFeature, InsertFeature};

// The line model, computed from its definition, to hold the text store to.

fn is_break_char(c: char) -> bool {
    matches!(c, '\n' | '\u{000B}' | '\u{000C}' | '\r' | '\u{0085}' | '\u{2028}' | '\u{2029}')
}

fn break_ends_at(s: &[char], p: usize) -> bool {
    p > 0 && p <= s.len() && is_break_char(s[p - 1]) && !(s[p - 1] == '\r' && p < s.len() && s[p] == '\n')
}

fn line_starts(s: &[char]) -> Vec<usize> {
    let mut starts = vec![0];
    for p in 1..=s.len() {
        if break_ends_at(s, p) {
            starts.push(p);
        }
    }
    starts
}

fn breaks_before(s: &[char], p: usize) -> usize {
    (1..=p).filter(|q| break_ends_at(s, *q)).count()
}

fn content_len(s: &[char], a: usize) -> usize {
    s[a..].iter().take_while(|c| !is_break_char(**c)).count()
}

struct Random(u64);

impl Random {
    fn next(&mut self) -> u64 {
        self.0 ^= self.0 << 13;
        self.0 ^= self.0 >> 7;
        self.0 ^= self.0 << 17;
        self.0
    }

    fn below(&mut self, n: usize) -> usize {
        (self.next() % (n as u64)) as usize
    }

    fn text(&mut self, len: usize) -> Vec<char> {
        let alphabet = [
            'a', 'b', ' ', '\u{00e9}', '\u{4e16}', '\n', '\n', '\r', '\r', '\u{000B}', '\u{000C}',
            '\u{0085}', '\u{2028}', '\u{2029}', 'z', '\t',
        ];
        (0..len).map(|_| alphabet[self.below(alphabet.len())]).collect()
    }
}

fn check_store_against_model(chars: &[char]) {
    let text: String = chars.iter().collect();
    let buffer = RopeBuffer::from_string(&text);
    let starts = line_starts(chars);
    assert_eq!(buffer.len_chars(), chars.len());
    assert_eq!(buffer.len_lines(), starts.len());
    for (line, start) in starts.iter().enumerate() {
        assert_eq!(buffer.line_to_char(line), *start);
        assert_eq!(buffer.char_to_line(*start), line);
        assert_eq!(buffer.line_len(line), content_len(chars, *start));
        let end = if line + 1 < starts.len() { starts[line + 1] } else { chars.len() };
        let expected: String = chars[*start..end].iter().collect();
        assert_eq!(buffer.line(line), Some(expected));
    }
    assert_eq!(buffer.line_to_char(starts.len()), chars.len());
    assert_eq!(buffer.line(starts.len()), None);
    assert_eq!(buffer.line_len(starts.len()), 0);
}

#[test]
fn store_agrees_with_the_line_model_on_short_texts() {
    let mut random = Random(0x9e3779b97f4a7c15);
    for len in 0..40 {
        for _ in 0..40 {
            let chars = random.text(len);
            check_store_against_model(&chars);
            let text: String = chars.iter().collect();
            let buffer = RopeBuffer::from_string(&text);
            for p in 0..=chars.len() {
                assert_eq!(buffer.char_to_line(p), breaks_before(&chars, p));
            }
        }
    }
}

#[test]
fn store_agrees_with_the_line_model_on_long_texts() {
    let mut random = Random(0x2545f4914f6cdd1d);
    for round in 0..6 {
        let chars = random.text(3000 + 997 * round);
        check_store_against_model(&chars);
        let text: String = chars.iter().collect();
        let buffer = RopeBuffer::from_string(&text);
        let mut count = 0;
        for p in 0..=chars.len() {
            if break_ends_at(&chars, p) {
                count += 1;
            }
            if p % 7 == 0 || break_ends_at(&chars, p) {
                assert_eq!(buffer.char_to_line(p), count);
            }
        }
    }
}

#[test]
fn store_agrees_with_the_line_model_after_edits() {
    let mut random = Random(0xda942042e4dd58b5);
    for _ in 0..30 {
        let mut chars = random.text(200);
        let text: String = chars.iter().collect();
        let mut buffer = RopeBuffer::from_string(&text);
        for _ in 0..60 {
            match random.below(3) {
                0 => {
                    let at = random.below(chars.len() + 1);
                    let c = random.text(1)[0];
                    buffer.insert_char(at, c);
                    chars.insert(at, c);
                }
                1 => {
                    let at = random.below(chars.len() + 1);
                    let len = random.below(5);
                    let piece = random.text(len);
                    buffer.insert(at, &piece.iter().collect::<String>());
                    for (i, c) in piece.iter().enumerate() {
                        chars.insert(at + i, *c);
                    }
                }
                _ => {
                    let start = random.below(chars.len() + 1);
                    let end = (start + random.below(4)).min(chars.len());
                    buffer.remove(start..end);
                    chars.drain(start..end);
                }
            }
            let starts = line_starts(&chars);
            assert_eq!(buffer.chunks().concat(), chars.iter().collect::<String>());
            assert_eq!(buffer.len_lines(), starts.len());
            let line = random.below(starts.len());
            assert_eq!(buffer.line_to_char(line), starts[line]);
            assert_eq!(buffer.line_len(line), content_len(&chars, starts[line]));
        }
    }
}

#[test]
fn edits_at_random_valid_cursors_leave_the_cursor_valid() {
    let mut random = Random(0x1234567887654321);
    for _ in 0..300 {
        let len = 1 + random.below(30);
        let chars = random.text(len);
        let text: String = chars.iter().collect();
        let probe = RopeBuffer::from_string(&text);
        let line = random.below(probe.len_lines());
        let column = random.below(probe.line_len(line) + 1);
        let start = CursorPosition::at(line, column);
        assert!(start.is_valid(&probe));
        let offset = start.char_idx(&probe);

        let mut buffer = RopeBuffer::from_string(&text);
        let mut cursor = start;
        InsertFeature::insert_char(&mut buffer, &mut cursor, 'x');
        assert!(cursor.is_valid(&buffer));
        assert_eq!(cursor, CursorPosition::at(line, column + 1));

        let mut buffer = RopeBuffer::from_string(&text);
        let mut cursor = start;
        InsertFeature::insert_tab(&mut buffer, &mut cursor);
        assert!(cursor.is_valid(&buffer));

        let mut buffer = RopeBuffer::from_string(&text);
        let mut cursor = start;
        InsertFeature::insert_newline(&mut buffer, &mut cursor);
        assert_eq!(cursor, CursorPosition::at(line + 1, 0));
        if !(offset > 0 && chars[offset - 1] == '\r') {
            assert!(cursor.is_valid(&buffer));
        }

        let mut buffer = RopeBuffer::from_string(&text);
        let mut cursor = start;
        DeleteFeature::backspace(&mut buffer, &mut cursor);
        assert!(cursor.is_valid(&buffer));

        let mut buffer = RopeBuffer::from_string(&text);
        DeleteFeature::delete(&mut buffer, &start);
        assert!(start.is_valid(&buffer));
        if offset < chars.len() {
            assert_eq!(buffer.len_chars(), chars.len() - 1);
        } else {
            assert_eq!(buffer.len_chars(), chars.len());
        }
    }
}
