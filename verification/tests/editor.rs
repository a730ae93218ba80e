use viteditor_rs::{KeyEvent, State, Viteditor};

fn editor_with_lines(lines: Vec<&str>) -> Viteditor {
    let mut ed = Viteditor::default();
    ed.buf = lines.into_iter().map(|l| l.chars().collect()).collect();
    ed
}

const ROWS: usize = 10;

#[test]
fn default_is_one_empty_line_in_normal_mode() {
    let ed = Viteditor::default();
    assert_eq!(ed.buf, vec![Vec::<char>::new()]);
    assert_eq!(ed.cursor.pos.row, 0);
    assert_eq!(ed.cursor.pos.column, 0);
    assert_eq!(ed.row_offset, 0);
    assert_eq!(ed.state, State::Normal);
    assert_eq!(ed.words.words_len, Vec::<usize>::new());
}

#[test]
fn right_clamps_at_line_end() {
    // One line "ab": three Rights leave the column at the line length.
    let mut ed = editor_with_lines(vec!["ab"]);
    ed.event(KeyEvent::Right, ROWS);
    ed.event(KeyEvent::Right, ROWS);
    ed.event(KeyEvent::Right, ROWS);
    assert_eq!(ed.cursor.pos.column, 2);
    assert_eq!(ed.cursor.pos.row, 0);
}

#[test]
fn left_clamps_at_column_zero() {
    let mut ed = editor_with_lines(vec!["ab"]);
    ed.event(KeyEvent::Left, ROWS);
    assert_eq!(ed.cursor.pos.column, 0);
}

#[test]
fn right_then_left_returns_to_origin() {
    let mut ed = editor_with_lines(vec!["ab"]);
    ed.event(KeyEvent::Right, ROWS);
    ed.event(KeyEvent::Left, ROWS);
    assert_eq!(ed.cursor.pos.column, 0);
}

#[test]
fn down_down_then_up_keeps_column_clamped() {
    // Three lines "a", "bb", "c": two Downs land on (2, 0), one Up on (1, 0).
    let mut ed = editor_with_lines(vec!["a", "bb", "c"]);
    ed.event(KeyEvent::Down, ROWS);
    ed.event(KeyEvent::Down, ROWS);
    assert_eq!((ed.cursor.pos.row, ed.cursor.pos.column), (2, 0));
    ed.event(KeyEvent::Up, ROWS);
    assert_eq!((ed.cursor.pos.row, ed.cursor.pos.column), (1, 0));
    assert!(ed.cursor.pos.column <= 2);
}

#[test]
fn down_clamps_column_to_shorter_line() {
    let mut ed = editor_with_lines(vec!["abcd", "x"]);
    for _ in 0..4 {
        ed.event(KeyEvent::Right, ROWS);
    }
    assert_eq!(ed.cursor.pos.column, 4);
    ed.event(KeyEvent::Down, ROWS);
    assert_eq!((ed.cursor.pos.row, ed.cursor.pos.column), (1, 1));
}

#[test]
fn down_at_last_line_is_a_no_op() {
    let mut ed = editor_with_lines(vec!["a"]);
    ed.event(KeyEvent::Down, ROWS);
    assert_eq!(ed.cursor.pos.row, 0);
}

#[test]
fn vim_keys_move_like_arrows() {
    let mut ed = editor_with_lines(vec!["ab", "cd"]);
    ed.event(KeyEvent::Char('l'), ROWS);
    assert_eq!((ed.cursor.pos.row, ed.cursor.pos.column), (0, 1));
    ed.event(KeyEvent::Char('j'), ROWS);
    assert_eq!((ed.cursor.pos.row, ed.cursor.pos.column), (1, 1));
    ed.event(KeyEvent::Char('h'), ROWS);
    assert_eq!((ed.cursor.pos.row, ed.cursor.pos.column), (1, 0));
    ed.event(KeyEvent::Char('k'), ROWS);
    assert_eq!((ed.cursor.pos.row, ed.cursor.pos.column), (0, 0));
}

#[test]
fn typing_into_empty_buffer_leaves_one_line() {
    // 'i', 'x', Esc on an empty buffer: one line "x", Normal mode again.
    let mut ed = Viteditor::default();
    ed.event(KeyEvent::Char('i'), ROWS);
    assert_eq!(ed.state, State::Insert);
    ed.event(KeyEvent::Char('x'), ROWS);
    ed.event(KeyEvent::Esc, ROWS);
    assert_eq!(ed.buf, vec![vec!['x']]);
    assert_eq!(ed.state, State::Normal);
    assert_eq!(ed.cursor.pos.column, 1);
}

#[test]
fn insert_at_middle_grows_line_by_one() {
    // Cursor at column 1 of "ab": inserting 'x' gives "axb", cursor at 2.
    let mut ed = editor_with_lines(vec!["ab"]);
    ed.event(KeyEvent::Right, ROWS);
    ed.event(KeyEvent::Char('i'), ROWS);
    ed.event(KeyEvent::Char('x'), ROWS);
    assert_eq!(ed.buf, vec![vec!['a', 'x', 'b']]);
    assert_eq!(ed.cursor.pos.column, 2);
    assert_eq!(ed.state, State::Insert);
}

#[test]
fn insert_mode_takes_line_breaks_literally() {
    let mut ed = Viteditor::default();
    ed.event(KeyEvent::Char('i'), ROWS);
    ed.event(KeyEvent::Char('\n'), ROWS);
    assert_eq!(ed.buf, vec![vec!['\n']]);
    assert_eq!(ed.buf.len(), 1);
}

#[test]
fn esc_in_insert_mode_always_returns_to_normal() {
    let mut ed = Viteditor::default();
    ed.event(KeyEvent::Char('i'), ROWS);
    ed.event(KeyEvent::Esc, ROWS);
    assert_eq!(ed.state, State::Normal);
    let mut full = editor_with_lines(vec!["some", "content"]);
    full.event(KeyEvent::Char('i'), ROWS);
    full.event(KeyEvent::Char('y'), ROWS);
    full.event(KeyEvent::Esc, ROWS);
    assert_eq!(full.state, State::Normal);
}

#[test]
fn unmapped_events_are_absorbed() {
    let mut ed = editor_with_lines(vec!["ab"]);
    ed.event(KeyEvent::Ctrl('c'), ROWS);
    assert_eq!(ed.state, State::Normal);
    assert_eq!(ed.buf, vec![vec!['a', 'b']]);
    ed.event(KeyEvent::Char('i'), ROWS);
    ed.event(KeyEvent::Up, ROWS);
    assert_eq!(ed.state, State::Insert);
    assert_eq!(ed.buf, vec![vec!['a', 'b']]);
}

#[test]
fn exit_event_is_terminal() {
    let mut ed = editor_with_lines(vec!["ab"]);
    ed.event(KeyEvent::Exit, ROWS);
    assert_eq!(ed.state, State::Exit);
    ed.event(KeyEvent::Char('i'), ROWS);
    assert_eq!(ed.state, State::Exit);
    assert_eq!(ed.buf, vec![vec!['a', 'b']]);
}

#[test]
fn scrolling_down_keeps_cursor_in_window() {
    // Five lines, a two-row terminal: the window follows the cursor with
    // minimal movement.
    let mut ed = editor_with_lines(vec!["0", "1", "2", "3", "4"]);
    let rows = 2;
    for expected_row in 1..5 {
        ed.event(KeyEvent::Down, rows);
        let r = ed.cursor.pos.row;
        assert_eq!(r, expected_row);
        assert!(ed.row_offset <= r);
        assert!(r < ed.row_offset + rows);
    }
    assert_eq!(ed.row_offset, 3);
}

#[test]
fn scrolling_up_keeps_cursor_in_window() {
    let mut ed = editor_with_lines(vec!["0", "1", "2", "3", "4"]);
    let rows = 2;
    for _ in 0..4 {
        ed.event(KeyEvent::Down, rows);
    }
    for _ in 0..4 {
        ed.event(KeyEvent::Up, rows);
        let r = ed.cursor.pos.row;
        assert!(ed.row_offset <= r);
        assert!(r < ed.row_offset + rows);
    }
    assert_eq!((ed.cursor.pos.row, ed.row_offset), (0, 0));
}

#[test]
fn horizontal_motion_keeps_window() {
    let mut ed = editor_with_lines(vec!["abc", "def", "ghi"]);
    let rows = 2;
    ed.event(KeyEvent::Down, rows);
    ed.event(KeyEvent::Down, rows);
    let offset = ed.row_offset;
    ed.event(KeyEvent::Right, rows);
    ed.event(KeyEvent::Left, rows);
    assert_eq!(ed.row_offset, offset);
    assert!(ed.row_offset <= ed.cursor.pos.row);
    assert!(ed.cursor.pos.row < ed.row_offset + rows);
}

#[test]
fn word_skip_steps_one_past_recorded_word_length() {
    // Word lengths [4, 5] over "hello world": 'e' skips 5 columns.
    let mut ed = editor_with_lines(vec!["hello world"]);
    ed.words.words_len = vec![4, 5];
    ed.event(KeyEvent::Char('e'), ROWS);
    assert_eq!(ed.cursor.pos.column, 5);
    assert_eq!(ed.state, State::Normal);
}

#[test]
fn word_skip_clamps_at_line_end() {
    let mut ed = editor_with_lines(vec!["ab"]);
    ed.words.words_len = vec![7];
    ed.event(KeyEvent::Char('e'), ROWS);
    assert_eq!(ed.cursor.pos.column, 2);
}

#[test]
fn word_skip_without_index_is_a_no_op() {
    let mut ed = editor_with_lines(vec!["hello"]);
    ed.event(KeyEvent::Char('e'), ROWS);
    assert_eq!(ed.cursor.pos.column, 0);
    assert_eq!(ed.state, State::Normal);
}

#[test]
fn line_accessors_read_and_replace() {
    let mut ed = editor_with_lines(vec!["ab", "cd"]);
    assert_eq!(ed.line_count(), 2);
    assert_eq!(ed.line(1), &vec!['c', 'd']);
    ed.replace_line(0, vec!['z']);
    assert_eq!(ed.line(0), &vec!['z']);
    assert_eq!(ed.line_count(), 2);
}
