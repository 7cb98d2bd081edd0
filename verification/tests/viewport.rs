use ted::filedata::FileData;
use ted::session::{pad_to, Session};

const KEY_UP: u16 = 65517;
const KEY_DOWN: u16 = 65516;
const KEY_LEFT: u16 = 65515;

fn chars(s: &str) -> Vec<char> {
    s.chars().collect()
}

fn session_with(text: &str, width: usize, height: usize) -> Session {
    let mut d = FileData::new();
    for ch in text.chars() {
        if ch == '\n' {
            d.enter();
        } else {
            d.write_char(ch);
        }
    }
    let mut s = Session::new(d);
    s.resize_event(width, height);
    s
}

#[test]
fn vertical_scroll_keeps_cursor_in_text_region() {
    let mut s = session_with("0\n1\n2\n3\n4\n5\n6\n7\n8\n9", 80, 5);
    // Jump the cursor to the top, then walk down through the document.
    for _ in 0..12 {
        s.key_event(KEY_UP, '\0');
        s.check_scroll();
        let cursor = s.data().get_cursor_line();
        assert!(s.line_scroll() <= cursor);
        assert!(cursor <= s.line_scroll() + s.height() - 2);
    }
    assert_eq!(s.line_scroll(), 0);
    for _ in 0..12 {
        s.key_event(KEY_DOWN, '\0');
        s.check_scroll();
        let cursor = s.data().get_cursor_line();
        assert!(s.line_scroll() <= cursor);
        assert!(cursor <= s.line_scroll() + s.height() - 2);
    }
    // Ten lines, four text rows: the last correction leaves the bottom.
    assert_eq!(s.data().get_cursor_line(), 9);
    assert_eq!(s.line_scroll(), 6);
}

#[test]
fn scroll_jumps_back_up_to_cursor() {
    let mut s = session_with("0\n1\n2\n3\n4\n5\n6\n7\n8\n9", 80, 4);
    for _ in 0..12 {
        s.key_event(KEY_DOWN, '\0');
    }
    s.check_scroll();
    assert!(s.line_scroll() > 0);
    for _ in 0..12 {
        s.key_event(KEY_UP, '\0');
    }
    s.check_scroll();
    assert_eq!(s.line_scroll(), 0);
}

#[test]
fn horizontal_scroll_advances_by_exact_overflow() {
    let mut s = session_with("abcdefghij", 5, 4);
    // The cursor sits after the tenth character: display column 10.
    s.update_screen_cursor();
    assert_eq!(s.screen_col(), 10);
    s.check_scroll();
    // 10 - 5 + 1 = 6: the cursor lands on the last visible column.
    assert_eq!(s.char_scroll(), 6);
    s.update_screen_cursor();
    assert_eq!(s.screen_col(), 4);
}

#[test]
fn horizontal_scroll_resets_when_cursor_leaves_left_edge() {
    let mut s = session_with("abcdefghij", 5, 4);
    s.check_scroll();
    assert_eq!(s.char_scroll(), 6);
    for _ in 0..10 {
        s.key_event(KEY_LEFT, '\0');
    }
    s.update_screen_cursor();
    assert!(s.screen_col() < 0);
    s.check_scroll();
    assert_eq!(s.char_scroll(), 0);
}

#[test]
fn tabs_take_fixed_width_in_cursor_column() {
    let mut s = session_with("\tab", 80, 4);
    // Cursor after "\tab": 4 + 1 + 1 = 6.
    s.update_screen_cursor();
    assert_eq!(s.screen_col(), 6);
}

#[test]
fn render_line_expands_tabs_and_stops_at_width() {
    let s = session_with("a\tbc", 6, 4);
    let row = s.render_line(0).unwrap();
    assert_eq!(row, chars("a    b"));
    assert!(s.render_line(1).is_none());
}

#[test]
fn render_line_honors_horizontal_scroll() {
    let mut s = session_with("abcdef", 3, 4);
    s.check_scroll();
    assert_eq!(s.char_scroll(), 4);
    let row = s.render_line(0).unwrap();
    assert_eq!(row, chars("ef "));
}

#[test]
fn pad_to_widens_with_spaces() {
    assert_eq!(pad_to(String::from("ab"), 5), "ab   ");
    assert_eq!(pad_to(String::from("abc"), 2), "abc");
    assert_eq!(pad_to(String::new(), 3), "   ");
}

#[test]
fn status_line_shows_title_cursor_and_line_count() {
    let s = session_with("", 80, 4);
    assert_eq!(s.status_line(), "<Untitled>  [1,1]  lines: 1");
    let mut s = session_with("ab\nc", 80, 4);
    assert_eq!(s.status_line(), "~<Untitled>  [2,2]  lines: 2");
    s.open_result(String::from("f.txt"), Ok("ab".chars().collect()));
    s.next_message();
    assert_eq!(s.status_line(), "f.txt  [1,1]  lines: 1");
}

#[test]
fn status_line_in_command_mode_shows_trimmed_input() {
    let mut s = session_with("", 80, 4);
    s.key_event(27, '\0');
    for ch in "  save x ".chars() {
        s.key_event(ch as u16, ch);
    }
    assert_eq!(s.status_line(), "save x");
    let mut t = session_with("", 80, 4);
    t.key_event(27, '\0');
    assert_eq!(t.status_line(), "");
}

#[test]
fn messages_show_most_recent_first() {
    let mut s = session_with("", 80, 4);
    s.notify(String::from("first"));
    s.notify(String::from("second"));
    assert_eq!(s.next_message().unwrap(), "second");
    assert_eq!(s.next_message().unwrap(), "first");
    assert!(s.next_message().is_none());
}

#[test]
fn keystroke_redraws_are_throttled_and_flushed() {
    let mut s = session_with("", 80, 4);
    // Inside the frame interval: suppressed and recorded.
    assert!(!s.draw_after_keypress_decision(Some(100)));
    // The idle tick flushes it only once the interval has passed.
    assert!(!s.redo_skipped_draw_decision(Some(100)));
    assert!(s.redo_skipped_draw_decision(Some(30_000_000)));
    // Nothing pending: the idle tick draws nothing.
    assert!(!s.redo_skipped_draw_decision(Some(30_000_000)));
    // Past the interval, or with a failing clock, the draw is immediate.
    assert!(s.draw_after_keypress_decision(Some(25_000_000)));
    assert!(s.draw_after_keypress_decision(None));
}

#[test]
fn cursor_moves_take_the_cheap_redraw_path() {
    let mut s = session_with("ab\ncd", 80, 4);
    assert!(!s.cursor_only());
    s.key_event(KEY_UP, '\0');
    assert!(s.cursor_only());
    s.check_scroll();
    assert!(s.cursor_only());
    s.clear_cursor_only();
    assert!(!s.cursor_only());
    // An edit does not set the cursor-only flag.
    s.key_event('x' as u16, 'x');
    assert!(!s.cursor_only());
}
