use viteditor_rs::args::args_parse;
use viteditor_rs::text::split_lines;
use viteditor_rs::{State, Viteditor};

fn chars(s: &str) -> Vec<char> {
    s.chars().collect()
}

#[test]
fn split_empty_text_has_no_lines() {
    assert_eq!(split_lines(&chars("")), Vec::<Vec<char>>::new());
}

#[test]
fn split_on_line_feeds() {
    assert_eq!(split_lines(&chars("a\nbb\nc")), vec![vec!['a'], vec!['b', 'b'], vec!['c']]);
}

#[test]
fn split_strips_carriage_return_before_line_feed() {
    assert_eq!(split_lines(&chars("a\r\nb")), vec![vec!['a'], vec!['b']]);
}

#[test]
fn split_keeps_lone_carriage_return() {
    assert_eq!(split_lines(&chars("a\rb\nc\r")), vec![
        vec!['a', '\r', 'b'],
        vec!['c', '\r'],
    ]);
}

#[test]
fn split_final_line_break_opens_no_line() {
    assert_eq!(split_lines(&chars("a\n")), vec![vec!['a']]);
    assert_eq!(split_lines(&chars("a\n\n")), vec![vec!['a'], vec![]]);
    assert_eq!(split_lines(&chars("\n")), vec![Vec::<char>::new()]);
}

#[test]
fn open_splits_text_and_stores_word_lengths() {
    let mut ed = Viteditor::default();
    ed.open(&chars("one\ntwo"), vec![3, 3]);
    assert_eq!(ed.buf, vec![chars("one"), chars("two")]);
    assert_eq!(ed.words.words_len, vec![3, 3]);
    assert_eq!(ed.cursor.pos.row, 0);
    assert_eq!(ed.cursor.pos.column, 0);
    assert_eq!(ed.state, State::Normal);
}

#[test]
fn open_empty_text_leaves_one_empty_line() {
    let mut ed = Viteditor::default();
    ed.open(&chars(""), Vec::new());
    assert_eq!(ed.buf, vec![Vec::<char>::new()]);
}

#[test]
fn args_one_positional_argument_parses() {
    let args = vec![String::from("viteditor"), String::from("notes.txt")];
    let parsed = args_parse(&args).unwrap();
    assert_eq!(parsed.filepath.as_deref(), Some("notes.txt"));
    assert!(parsed.help.is_none());
}

#[test]
fn args_wrong_argument_count_is_a_usage_error() {
    assert!(args_parse(&vec![String::from("viteditor")]).is_err());
    let three = vec![String::from("viteditor"), String::from("a"), String::from("b")];
    assert!(args_parse(&three).is_err());
}
