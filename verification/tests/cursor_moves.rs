use kappa::buffer::RopeBuffer;
use kappa::cursor::{CursorMovement, CursorPosition};

fn text() -> RopeBuffer {
    // lines: "hello" (5), "" (0), "hi" (2), "a longer line" (13)
    RopeBuffer::from_string("hello\n\nhi\r\na longer line")
}

#[test]
fn new_cursor_is_at_the_origin() {
    assert_eq!(CursorPosition::new(), CursorPosition { line: 0, column: 0 });
    assert_eq!(CursorPosition::default(), CursorPosition::at(0, 0));
}

#[test]
fn at_move_to_and_reset_set_both_fields() {
    let mut cursor = CursorPosition::at(3, 7);
    assert_eq!((cursor.line, cursor.column), (3, 7));
    cursor.move_to(1, 2);
    assert_eq!(cursor, CursorPosition::at(1, 2));
    cursor.reset();
    assert_eq!(cursor, CursorPosition::at(0, 0));
}

#[test]
fn validity_is_line_and_column_in_bounds() {
    let buffer = text();
    assert!(CursorPosition::at(0, 0).is_valid(&buffer));
    assert!(CursorPosition::at(0, 5).is_valid(&buffer));
    assert!(!CursorPosition::at(0, 6).is_valid(&buffer));
    assert!(CursorPosition::at(1, 0).is_valid(&buffer));
    assert!(!CursorPosition::at(1, 1).is_valid(&buffer));
    assert!(CursorPosition::at(2, 2).is_valid(&buffer));
    assert!(!CursorPosition::at(2, 3).is_valid(&buffer));
    assert!(CursorPosition::at(3, 13).is_valid(&buffer));
    assert!(!CursorPosition::at(4, 0).is_valid(&buffer));
    assert!(CursorPosition::at(0, 0).is_valid(&RopeBuffer::new()));
    assert!(!CursorPosition::at(1, 0).is_valid(&RopeBuffer::new()));
}

#[test]
fn offset_is_line_start_plus_column() {
    let buffer = text();
    assert_eq!(CursorPosition::at(0, 0).char_idx(&buffer), 0);
    assert_eq!(CursorPosition::at(0, 5).char_idx(&buffer), 5);
    assert_eq!(CursorPosition::at(1, 0).char_idx(&buffer), 6);
    assert_eq!(CursorPosition::at(2, 1).char_idx(&buffer), 8);
    assert_eq!(CursorPosition::at(3, 13).char_idx(&buffer), 24);
}

#[test]
fn left_steps_back_and_wraps_to_the_previous_line_end() {
    let buffer = text();
    let mut cursor = CursorPosition::at(0, 3);
    CursorMovement::move_left(&mut cursor, &buffer);
    assert_eq!(cursor, CursorPosition::at(0, 2));
    let mut cursor = CursorPosition::at(1, 0);
    CursorMovement::move_left(&mut cursor, &buffer);
    assert_eq!(cursor, CursorPosition::at(0, 5));
    let mut cursor = CursorPosition::at(3, 0);
    CursorMovement::move_left(&mut cursor, &buffer);
    assert_eq!(cursor, CursorPosition::at(2, 2));
    let mut cursor = CursorPosition::at(0, 0);
    CursorMovement::move_left(&mut cursor, &buffer);
    assert_eq!(cursor, CursorPosition::at(0, 0));
}

#[test]
fn right_steps_on_and_wraps_to_the_next_line_start() {
    let buffer = text();
    let mut cursor = CursorPosition::at(0, 4);
    CursorMovement::move_right(&mut cursor, &buffer);
    assert_eq!(cursor, CursorPosition::at(0, 5));
    CursorMovement::move_right(&mut cursor, &buffer);
    assert_eq!(cursor, CursorPosition::at(1, 0));
    CursorMovement::move_right(&mut cursor, &buffer);
    assert_eq!(cursor, CursorPosition::at(2, 0));
    let mut cursor = CursorPosition::at(3, 13);
    CursorMovement::move_right(&mut cursor, &buffer);
    assert_eq!(cursor, CursorPosition::at(3, 13));
}

#[test]
fn up_and_down_clamp_the_column_without_memory() {
    let buffer = text();
    let mut cursor = CursorPosition::at(3, 10);
    CursorMovement::move_up(&mut cursor, &buffer);
    assert_eq!(cursor, CursorPosition::at(2, 2));
    CursorMovement::move_up(&mut cursor, &buffer);
    assert_eq!(cursor, CursorPosition::at(1, 0));
    CursorMovement::move_up(&mut cursor, &buffer);
    assert_eq!(cursor, CursorPosition::at(0, 0));
    CursorMovement::move_up(&mut cursor, &buffer);
    assert_eq!(cursor, CursorPosition::at(0, 0));

    let mut cursor = CursorPosition::at(0, 4);
    CursorMovement::move_down(&mut cursor, &buffer);
    assert_eq!(cursor, CursorPosition::at(1, 0));
    CursorMovement::move_down(&mut cursor, &buffer);
    assert_eq!(cursor, CursorPosition::at(2, 0));
    CursorMovement::move_down(&mut cursor, &buffer);
    assert_eq!(cursor, CursorPosition::at(3, 0));
    CursorMovement::move_down(&mut cursor, &buffer);
    assert_eq!(cursor, CursorPosition::at(3, 0));
}

#[test]
fn line_start_and_line_end() {
    let buffer = text();
    let mut cursor = CursorPosition::at(3, 6);
    CursorMovement::move_line_start(&mut cursor);
    assert_eq!(cursor, CursorPosition::at(3, 0));
    CursorMovement::move_line_end(&mut cursor, &buffer);
    assert_eq!(cursor, CursorPosition::at(3, 13));
    let mut cursor = CursorPosition::at(2, 0);
    CursorMovement::move_line_end(&mut cursor, &buffer);
    assert_eq!(cursor, CursorPosition::at(2, 2));
}

#[test]
fn page_up_moves_by_one_less_than_the_page_and_stops_at_the_top() {
    let mut lines = String::new();
    for i in 0..50 {
        lines.push_str(&format!("{}\n", "x".repeat(i)));
    }
    let buffer = RopeBuffer::from_string(&lines);
    let mut cursor = CursorPosition::at(30, 25);
    CursorMovement::page_up(&mut cursor, &buffer, 10);
    assert_eq!(cursor, CursorPosition::at(21, 21));
    CursorMovement::page_up(&mut cursor, &buffer, 10);
    assert_eq!(cursor, CursorPosition::at(12, 12));
    CursorMovement::page_up(&mut cursor, &buffer, 20);
    assert_eq!(cursor, CursorPosition::at(0, 0));
    let mut cursor = CursorPosition::at(5, 3);
    CursorMovement::page_up(&mut cursor, &buffer, 0);
    assert_eq!(cursor, CursorPosition::at(5, 3));
    CursorMovement::page_up(&mut cursor, &buffer, 1);
    assert_eq!(cursor, CursorPosition::at(5, 3));
}

#[test]
fn page_down_moves_by_one_less_than_the_page_and_stops_at_the_bottom() {
    let mut lines = String::new();
    for i in 0..50 {
        lines.push_str(&format!("{}\n", "x".repeat(50 - i)));
    }
    let buffer = RopeBuffer::from_string(&lines);
    assert_eq!(buffer.len_lines(), 51);
    let mut cursor = CursorPosition::at(10, 40);
    CursorMovement::page_down(&mut cursor, &buffer, 10);
    assert_eq!(cursor, CursorPosition::at(19, 31));
    CursorMovement::page_down(&mut cursor, &buffer, 40);
    assert_eq!(cursor, CursorPosition::at(50, 0));
    CursorMovement::page_down(&mut cursor, &buffer, 10);
    assert_eq!(cursor, CursorPosition::at(50, 0));
    let mut cursor = CursorPosition::at(3, 3);
    CursorMovement::page_down(&mut cursor, &buffer, usize::MAX);
    assert_eq!(cursor, CursorPosition::at(50, 0));
}

#[test]
fn clamp_brings_a_stray_cursor_back() {
    let buffer = text();
    let mut cursor = CursorPosition::at(9, 9);
    CursorMovement::clamp(&mut cursor, &buffer);
    assert_eq!(cursor, CursorPosition::at(3, 9));
    let mut cursor = CursorPosition::at(2, 9);
    CursorMovement::clamp(&mut cursor, &buffer);
    assert_eq!(cursor, CursorPosition::at(2, 2));
    let mut cursor = CursorPosition::at(0, 5);
    CursorMovement::clamp(&mut cursor, &buffer);
    assert_eq!(cursor, CursorPosition::at(0, 5));
}

#[test]
fn movements_keep_a_valid_cursor_valid() {
    let buffer = RopeBuffer::from_string("ab\r\n\ncdef\rg\u{2028}\nhij");
    for line in 0..buffer.len_lines() {
        for column in 0..=buffer.line_len(line) {
            let start = CursorPosition::at(line, column);
            assert!(start.is_valid(&buffer));
            let mut c = start;
            CursorMovement::move_left(&mut c, &buffer);
            assert!(c.is_valid(&buffer));
            let mut c = start;
            CursorMovement::move_right(&mut c, &buffer);
            assert!(c.is_valid(&buffer));
            let mut c = start;
            CursorMovement::move_up(&mut c, &buffer);
            assert!(c.is_valid(&buffer));
            let mut c = start;
            CursorMovement::move_down(&mut c, &buffer);
            assert!(c.is_valid(&buffer));
            let mut c = start;
            CursorMovement::move_line_end(&mut c, &buffer);
            assert!(c.is_valid(&buffer));
            let mut c = start;
            CursorMovement::page_up(&mut c, &buffer, 3);
            assert!(c.is_valid(&buffer));
            let mut c = start;
            CursorMovement::page_down(&mut c, &buffer, 3);
            assert!(c.is_valid(&buffer));
        }
    }
}
