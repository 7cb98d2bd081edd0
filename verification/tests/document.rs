use ted::filedata::FileData;

fn chars(s: &str) -> Vec<char> {
    s.chars().collect()
}

fn doc_with(text: &str) -> FileData {
    let mut d = FileData::new();
    for ch in text.chars() {
        if ch == '\n' {
            d.enter();
        } else {
            d.write_char(ch);
        }
    }
    d
}

#[test]
fn new_document_has_one_empty_line() {
    let d = FileData::new();
    assert_eq!(d.get_lines(), 1);
    assert_eq!(d.get_line(0).unwrap().len(), 0);
    assert_eq!(d.get_cursor_line(), 0);
    assert_eq!(d.get_cursor_char(), 0);
    assert!(!d.is_modified());
    assert!(d.get_path().is_none());
}

#[test]
fn line_count_never_below_one() {
    let mut d = FileData::new();
    assert!(d.get_lines() >= 1);
    d.backspace();
    assert!(d.get_lines() >= 1);
    d.remove();
    assert!(d.get_lines() >= 1);
    d.write_char('a');
    d.enter();
    d.backspace();
    d.backspace();
    d.backspace();
    assert!(d.get_lines() >= 1);
    d.clear();
    assert!(d.get_lines() >= 1);
}

#[test]
fn insert_then_backspace_restores_line_and_cursor() {
    let mut d = doc_with("abc");
    d.move_cursor_left();
    let line_before = d.get_line(0).unwrap().clone();
    let cursor_before = (d.get_cursor_line(), d.get_cursor_char());
    d.write_char('x');
    d.backspace();
    assert_eq!(d.get_line(0).unwrap(), &line_before);
    assert_eq!((d.get_cursor_line(), d.get_cursor_char()), cursor_before);
}

#[test]
fn split_then_backspace_restores_line_and_cursor() {
    let mut d = doc_with("hello");
    d.move_cursor_left();
    d.move_cursor_left();
    d.move_cursor_left();
    assert_eq!((d.get_cursor_line(), d.get_cursor_char()), (0, 2));
    d.enter();
    assert_eq!(d.get_lines(), 2);
    assert_eq!(d.get_line(0).unwrap(), &chars("he"));
    assert_eq!(d.get_line(1).unwrap(), &chars("llo"));
    assert_eq!((d.get_cursor_line(), d.get_cursor_char()), (1, 0));
    d.backspace();
    assert_eq!(d.get_lines(), 1);
    assert_eq!(d.get_line(0).unwrap(), &chars("hello"));
    assert_eq!((d.get_cursor_line(), d.get_cursor_char()), (0, 2));
}

#[test]
fn serialize_appends_newline_after_every_line() {
    let d = doc_with("hi\nthere");
    assert_eq!(d.to_string_copy(), "hi\nthere\n");
    let e = FileData::new();
    assert_eq!(e.to_string_copy(), "\n");
}

#[test]
fn save_then_load_reproduces_lines_with_empty_tail() {
    let d = doc_with("hi\nthere");
    let written = d.to_string_copy();
    let mut e = FileData::new();
    e.open(String::from("f.txt"), written.chars().collect());
    assert_eq!(e.get_lines(), 3);
    assert_eq!(e.get_line(0).unwrap(), &chars("hi"));
    assert_eq!(e.get_line(1).unwrap(), &chars("there"));
    assert_eq!(e.get_line(2).unwrap(), &chars(""));
    assert!(!e.is_modified());
    assert_eq!((e.get_cursor_line(), e.get_cursor_char()), (0, 0));
}

#[test]
fn load_splits_on_newlines() {
    let mut d = FileData::new();
    d.open(String::from("a.txt"), "a\n\nb".chars().collect());
    assert_eq!(d.get_lines(), 3);
    assert_eq!(d.get_line(0).unwrap(), &chars("a"));
    assert_eq!(d.get_line(1).unwrap(), &chars(""));
    assert_eq!(d.get_line(2).unwrap(), &chars("b"));
    assert_eq!(d.get_path(), Some(String::from("a.txt")));

    let mut e = FileData::new();
    e.open(String::from("b.txt"), "x\n".chars().collect());
    assert_eq!(e.get_lines(), 2);
    assert_eq!(e.get_line(0).unwrap(), &chars("x"));
    assert_eq!(e.get_line(1).unwrap(), &chars(""));

    let mut f = FileData::new();
    f.open(String::from("c.txt"), "".chars().collect());
    assert_eq!(f.get_lines(), 1);
    assert_eq!(f.get_line(0).unwrap(), &chars(""));
}

#[test]
fn backspace_three_times_empties_line() {
    let mut d = doc_with("abc");
    assert_eq!((d.get_cursor_line(), d.get_cursor_char()), (0, 3));
    d.backspace();
    d.backspace();
    d.backspace();
    assert_eq!(d.get_line(0).unwrap(), &chars(""));
    assert_eq!((d.get_cursor_line(), d.get_cursor_char()), (0, 0));
}

#[test]
fn backspace_at_document_start_only_marks_modified() {
    let mut d = FileData::new();
    assert!(!d.is_modified());
    d.backspace();
    assert_eq!(d.get_lines(), 1);
    assert_eq!(d.get_line(0).unwrap().len(), 0);
    assert_eq!((d.get_cursor_line(), d.get_cursor_char()), (0, 0));
    assert!(d.is_modified());
}

#[test]
fn remove_at_line_end_merges_next_line() {
    let mut d = doc_with("ab\ncd");
    d.move_cursor_up();
    assert_eq!((d.get_cursor_line(), d.get_cursor_char()), (0, 2));
    d.remove();
    assert_eq!(d.get_lines(), 1);
    assert_eq!(d.get_line(0).unwrap(), &chars("abcd"));
    assert_eq!((d.get_cursor_line(), d.get_cursor_char()), (0, 2));
}

#[test]
fn remove_at_document_end_only_marks_modified() {
    let mut d = doc_with("ab");
    let mut e = FileData::new();
    e.open(String::from("x"), "ab".chars().collect());
    assert!(!e.is_modified());
    e.move_cursor_right();
    e.move_cursor_right();
    e.remove();
    assert_eq!(e.get_line(0).unwrap(), d.get_line(0).unwrap());
    assert!(e.is_modified());
    d.remove();
    assert_eq!(d.get_line(0).unwrap(), &chars("ab"));
}

#[test]
fn horizontal_moves_wrap_at_line_boundaries() {
    let mut d = doc_with("ab\ncd");
    assert_eq!((d.get_cursor_line(), d.get_cursor_char()), (1, 2));
    d.move_cursor_left();
    d.move_cursor_left();
    assert_eq!((d.get_cursor_line(), d.get_cursor_char()), (1, 0));
    d.move_cursor_left();
    assert_eq!((d.get_cursor_line(), d.get_cursor_char()), (0, 2));
    d.move_cursor_right();
    assert_eq!((d.get_cursor_line(), d.get_cursor_char()), (1, 0));
    d.move_cursor_right();
    d.move_cursor_right();
    d.move_cursor_right();
    assert_eq!((d.get_cursor_line(), d.get_cursor_char()), (1, 2));
}

#[test]
fn vertical_moves_clamp_cursor_to_line_length() {
    let mut d = doc_with("long line\nab");
    assert_eq!((d.get_cursor_line(), d.get_cursor_char()), (1, 2));
    d.move_cursor_up();
    assert_eq!((d.get_cursor_line(), d.get_cursor_char()), (0, 2));
    d.move_cursor_right();
    d.move_cursor_right();
    d.move_cursor_right();
    d.move_cursor_down();
    assert_eq!((d.get_cursor_line(), d.get_cursor_char()), (1, 2));
    d.move_cursor_down();
    assert_eq!((d.get_cursor_line(), d.get_cursor_char()), (1, 2));
    d.move_cursor_up();
    d.move_cursor_up();
    assert_eq!(d.get_cursor_line(), 0);
}

#[test]
fn title_is_path_or_placeholder() {
    let mut d = FileData::new();
    assert_eq!(d.get_title(), "<Untitled>");
    d.set_path(Some(String::from("notes.txt")));
    assert_eq!(d.get_title(), "notes.txt");
    assert_eq!(d.get_path(), Some(String::from("notes.txt")));
}

#[test]
fn save_requires_a_path() {
    let mut d = doc_with("x");
    assert!(d.save().is_err());
    d.set_path(Some(String::from("out.txt")));
    let (path, content) = d.save().unwrap();
    assert_eq!(path, "out.txt");
    assert_eq!(content, "x\n");
    assert!(d.is_modified());
    d.mark_saved();
    assert!(!d.is_modified());
}

#[test]
fn clear_resets_to_untitled() {
    let mut d = doc_with("abc\ndef");
    d.set_path(Some(String::from("p")));
    d.clear();
    assert_eq!(d.get_lines(), 1);
    assert_eq!(d.get_line(0).unwrap().len(), 0);
    assert!(d.get_path().is_none());
    assert!(!d.is_modified());
}

#[test]
fn line_number_width_counts_decimal_digits() {
    let mut d = FileData::new();
    assert_eq!(d.get_line_number_len(), 1);
    for _ in 0..11 {
        d.enter();
    }
    assert_eq!(d.get_lines(), 12);
    assert_eq!(d.get_line_number_len(), 2);
}

#[test]
fn get_line_out_of_range_is_none() {
    let d = doc_with("a");
    assert!(d.get_line(1).is_none());
    assert!(d.get_line(0).is_some());
}
