use typotamer::document::Document;
use typotamer::editor::{decimal, is_control, Action, Editor, Key, Mode, Position, Size, StatusMsg};

fn editor_with(lines: &[&str], width: usize, height: usize) -> Editor {
    let mut t = String::new();
    for l in lines {
        t.push_str(l);
        t.push('\n');
    }
    let d = Document::from_text("f.txt".to_string(), &t);
    Editor::new(Some("f.txt".to_string()), Some(d), Size { width, height }, 0)
}

fn empty_editor() -> Editor {
    Editor::new(None, None, Size { width: 80, height: 24 }, 0)
}

fn rows(e: &Editor) -> Vec<String> {
    (0..e.document.len()).map(|i| e.document.row(i).unwrap().as_string()).collect()
}

fn type_str(e: &mut Editor, s: &str) {
    for c in s.chars() {
        e.process_key(Key::Char(c), 1);
    }
}

#[test]
fn editor_new_messages() {
    let e = empty_editor();
    assert_eq!(e.status_msg.text, "HELP: Ctrl-Q = quit");
    assert!(e.document.is_empty());
    let f = Editor::new(Some("missing.txt".to_string()), None, Size { width: 80, height: 24 }, 7);
    assert_eq!(f.status_msg.text, "ERR: Could not open file: missing.txt");
    assert_eq!(f.status_msg.time, 7);
    assert!(f.document.is_empty());
    assert_eq!(f.quit_times, 3);
}

#[test]
fn editor_type_and_save_as() {
    let mut e = empty_editor();
    type_str(&mut e, "abc");
    assert_eq!(rows(&e), vec!["abc"]);
    assert_eq!(e.cursor_position, Position { x: 3, y: 0 });
    assert!(e.document.is_dirty());
    assert_eq!(e.process_key(Key::Ctrl('s'), 2), Action::Nothing);
    assert_eq!(e.status_msg.text, "Save as: ");
    type_str(&mut e, "out.txt");
    assert_eq!(e.status_msg.text, "Save as: out.txt");
    assert_eq!(e.process_key(Key::Char('\n'), 3), Action::Save);
    assert_eq!(e.document.file_name().as_deref(), Some("out.txt"));
    assert_eq!(e.document.text(), "abc\n");
    e.save_finished(true, 4);
    assert!(!e.document.is_dirty());
    assert_eq!(e.status_msg.text, "File saved successfully.");
    assert_eq!(rows(&e), vec!["abc"]);
}

#[test]
fn editor_save_aborted_without_name() {
    let mut e = empty_editor();
    type_str(&mut e, "x");
    e.process_key(Key::Ctrl('s'), 2);
    assert_eq!(e.process_key(Key::Esc, 3), Action::Nothing);
    assert!(e.document.is_dirty());
    assert!(e.document.file_name().is_none());
    assert_eq!(e.status_msg.text, "Save aborted.");
    e.process_key(Key::Ctrl('s'), 4);
    assert_eq!(e.process_key(Key::Char('\n'), 5), Action::Nothing);
    assert!(e.document.is_dirty());
    assert!(matches!(e.mode, Mode::Normal));
}

#[test]
fn editor_save_with_name_and_failure() {
    let mut e = editor_with(&["a"], 80, 24);
    e.process_key(Key::Char('b'), 1);
    assert_eq!(e.process_key(Key::Ctrl('s'), 2), Action::Save);
    e.save_finished(false, 3);
    assert!(e.document.is_dirty());
    assert_eq!(e.status_msg.text, "Error writing file!");
}

#[test]
fn editor_delete_at_row_end_merges() {
    let mut e = editor_with(&["hello", "world"], 80, 24);
    e.cursor_position = Position { x: 5, y: 0 };
    e.process_key(Key::Delete, 1);
    assert_eq!(rows(&e), vec!["helloworld"]);
    assert_eq!(e.document.len(), 1);
    assert_eq!(e.cursor_position, Position { x: 5, y: 0 });
}

#[test]
fn editor_backspace_joins_lines() {
    let mut e = editor_with(&["hello", "world"], 80, 24);
    e.cursor_position = Position { x: 0, y: 1 };
    e.process_key(Key::Backspace, 1);
    assert_eq!(rows(&e), vec!["helloworld"]);
    assert_eq!(e.cursor_position, Position { x: 5, y: 0 });
    e.process_key(Key::Backspace, 1);
    assert_eq!(rows(&e), vec!["hellworld"]);
    let mut f = editor_with(&["ab"], 80, 24);
    f.process_key(Key::Backspace, 1);
    assert_eq!(rows(&f), vec!["ab"]);
    assert!(!f.document.is_dirty());
}

#[test]
fn editor_enter_splits_line() {
    let mut e = editor_with(&["hello"], 80, 24);
    e.cursor_position = Position { x: 2, y: 0 };
    e.process_key(Key::Char('\n'), 1);
    assert_eq!(rows(&e), vec!["he", "llo"]);
    assert_eq!(e.cursor_position, Position { x: 0, y: 1 });
}

#[test]
fn editor_search_found_and_failed() {
    let mut e = editor_with(&["hello", "world"], 80, 24);
    e.process_key(Key::Ctrl('f'), 1);
    assert_eq!(e.status_msg.text, "Search: ");
    type_str(&mut e, "world");
    assert_eq!(e.cursor_position, Position { x: 0, y: 1 });
    e.process_key(Key::Char('\n'), 2);
    assert_eq!(e.cursor_position, Position { x: 0, y: 1 });
    assert!(matches!(e.mode, Mode::Normal));

    let mut f = editor_with(&["hello", "world"], 80, 24);
    f.process_key(Key::Ctrl('f'), 1);
    type_str(&mut f, "xyz");
    f.process_key(Key::Char('\n'), 2);
    assert_eq!(f.cursor_position, Position { x: 0, y: 0 });
    assert_eq!(f.status_msg.text, "Search for 'xyz' failed");
}

#[test]
fn editor_prompt_backspace_and_control_chars() {
    let mut e = empty_editor();
    e.process_key(Key::Ctrl('f'), 1);
    type_str(&mut e, "ab");
    e.process_key(Key::Char('\t'), 1);
    e.process_key(Key::Backspace, 1);
    assert_eq!(e.status_msg.text, "Search: a");
    e.process_key(Key::Esc, 2);
    assert_eq!(e.status_msg.text, "");
    assert!(matches!(e.mode, Mode::Normal));
}

#[test]
fn editor_quit_needs_three_presses_when_dirty() {
    let mut e = editor_with(&["abc"], 80, 24);
    e.process_key(Key::Char('x'), 1);
    e.process_key(Key::Ctrl('q'), 2);
    assert!(!e.shld_quit);
    assert_eq!(e.quit_times, 2);
    assert_eq!(e.status_msg.text, "WARNING!!! File has unsaved changes. Press Ctrl-Q 2 more times to quit.");
    e.process_key(Key::Ctrl('q'), 3);
    assert!(!e.shld_quit);
    assert_eq!(e.quit_times, 1);
    e.process_key(Key::Ctrl('q'), 4);
    assert!(e.shld_quit);
}

#[test]
fn editor_quit_at_once_when_clean() {
    let mut e = editor_with(&["abc"], 80, 24);
    e.process_key(Key::Ctrl('q'), 1);
    assert!(e.shld_quit);
}

#[test]
fn editor_right_then_left_wraps_back() {
    let mut e = editor_with(&["ab", "cd"], 80, 24);
    e.cursor_position = Position { x: 2, y: 0 };
    e.move_cursor(Key::Right);
    assert_eq!(e.cursor_position, Position { x: 0, y: 1 });
    e.move_cursor(Key::Left);
    assert_eq!(e.cursor_position, Position { x: 2, y: 0 });
    e.cursor_position = Position { x: 0, y: 0 };
    e.move_cursor(Key::Left);
    assert_eq!(e.cursor_position, Position { x: 0, y: 0 });
    e.cursor_position = Position { x: 0, y: 2 };
    e.move_cursor(Key::Right);
    assert_eq!(e.cursor_position, Position { x: 0, y: 2 });
}

#[test]
fn editor_vertical_moves_clamp_column() {
    let mut e = editor_with(&["long line", "ab", "xyz"], 80, 2);
    e.cursor_position = Position { x: 8, y: 0 };
    e.move_cursor(Key::Down);
    assert_eq!(e.cursor_position, Position { x: 2, y: 1 });
    e.move_cursor(Key::End);
    assert_eq!(e.cursor_position, Position { x: 2, y: 1 });
    e.move_cursor(Key::Home);
    assert_eq!(e.cursor_position, Position { x: 0, y: 1 });
    e.move_cursor(Key::PageDown);
    assert_eq!(e.cursor_position, Position { x: 0, y: 3 });
    e.move_cursor(Key::Down);
    assert_eq!(e.cursor_position, Position { x: 0, y: 3 });
    e.move_cursor(Key::PageUp);
    assert_eq!(e.cursor_position, Position { x: 0, y: 1 });
    e.move_cursor(Key::Up);
    e.move_cursor(Key::Up);
    assert_eq!(e.cursor_position, Position { x: 0, y: 0 });
}

#[test]
fn editor_scroll_follows_cursor() {
    let mut e = editor_with(&["a"; 30], 10, 5);
    e.cursor_position = Position { x: 12, y: 7 };
    e.scroll();
    assert_eq!(e.offset, Position { x: 3, y: 3 });
    e.cursor_position = Position { x: 1, y: 2 };
    e.scroll();
    assert_eq!(e.offset, Position { x: 1, y: 2 });
    e.cursor_position = Position { x: 4, y: 6 };
    e.scroll();
    assert_eq!(e.offset, Position { x: 1, y: 2 });
    assert_eq!(e.screen_cursor(), Position { x: 3, y: 4 });
}

#[test]
fn editor_status_bar_layout() {
    let mut e = editor_with(&["abc", "de"], 30, 5);
    assert_eq!(e.status_bar(), "f.txt - 2 lines            1:1");
    e.process_key(Key::Char('x'), 1);
    assert_eq!(e.status_bar(), "f.txt - 2 lines (modified) 1:2");
    let f = Editor::new(None, None, Size { width: 10, height: 5 }, 0);
    assert_eq!(f.status_bar(), "[No Name] ");
}

#[test]
fn editor_status_bar_truncates_long_name() {
    let d = Document::from_text("abcdefghijklmnopqrstuvwxyz.txt".to_string(), "");
    let e = Editor::new(None, Some(d), Size { width: 80, height: 5 }, 0);
    assert!(e.status_bar().starts_with("abcdefghijklmnopqrst - 0 lines "));
    assert_eq!(e.status_bar().chars().count(), 80);
}

#[test]
fn editor_message_fades_after_five_seconds() {
    let e = Editor::new(None, None, Size { width: 8, height: 5 }, 1000);
    assert_eq!(e.message_line(1000), "HELP: Ct");
    assert_eq!(e.message_line(5999), "HELP: Ct");
    assert_eq!(e.message_line(6000), "");
    let m = StatusMsg::from("hi".to_string(), 10);
    assert!(m.is_visible(5009));
    assert!(!m.is_visible(5010));
}

#[test]
fn editor_text_lines() {
    let e = editor_with(&["hello"], 3, 6);
    assert_eq!(e.text_line(0, "1.0"), "hel");
    assert_eq!(e.text_line(1, "1.0"), "~");
    let f = Editor::new(None, None, Size { width: 30, height: 6 }, 0);
    assert_eq!(f.text_line(2, "1.0"), "~TypoTamer -- version 1.0. If ");
    assert_eq!(f.text_line(1, "1.0"), "~");
    let g = Editor::new(None, None, Size { width: 200, height: 6 }, 0);
    let w = g.welcome_line("1.0");
    assert!(w.starts_with("~"));
    assert!(w.ends_with("responsible for those)"));
    assert_eq!(w.chars().count(), 154);
}

#[test]
fn editor_row_window_uses_offset() {
    let mut e = editor_with(&["0123456789"], 4, 5);
    e.offset = Position { x: 3, y: 0 };
    let row = e.document.row(0).unwrap().clone();
    assert_eq!(e.row_window(&row), "3456");
}

#[test]
fn decimal_and_control() {
    let s: String = decimal(0).into_iter().collect();
    assert_eq!(s, "0");
    let t: String = decimal(1234567).into_iter().collect();
    assert_eq!(t, "1234567");
    assert!(is_control('\n'));
    assert!(is_control('\u{7f}'));
    assert!(is_control('\u{9f}'));
    assert!(!is_control('a'));
    assert!(!is_control('\u{a0}'));
}

#[test]
fn editor_cursor_stays_valid_and_visible() {
    let mut e = editor_with(&["first line", "", "third", "x"], 4, 2);
    let keys = [
        Key::End, Key::Right, Key::Right, Key::Down, Key::End, Key::Char('a'), Key::Backspace,
        Key::Backspace, Key::Backspace, Key::PageDown, Key::Left, Key::Delete, Key::Char('\n'),
        Key::Up, Key::Up, Key::Up, Key::Home, Key::Backspace, Key::PageDown, Key::PageDown,
        Key::Char('z'), Key::Left, Key::Left, Key::Left,
    ];
    for k in keys {
        e.process_key(k, 1);
        let p = e.cursor_position;
        assert!(p.y <= e.document.len());
        let width = e.document.row(p.y).map(|r| r.len()).unwrap_or(0);
        assert!(p.x <= width);
        assert!(e.offset.x <= p.x && p.x < e.offset.x + e.size.width);
        assert!(e.offset.y <= p.y && p.y < e.offset.y + e.size.height);
    }
}

#[test]
fn editor_quit_warning_still_scrolls() {
    let mut e = empty_editor();
    e.process_key(Key::Char('a'), 1);
    e.size = Size { width: 1, height: 24 };
    e.process_key(Key::Ctrl('q'), 2);
    assert!(!e.shld_quit);
    assert_eq!(e.cursor_position, Position { x: 1, y: 0 });
    assert_eq!(e.offset, Position { x: 1, y: 0 });
}

#[test]
fn editor_typing_then_backspace_restores() {
    let mut e = editor_with(&["hello", "world"], 80, 24);
    e.cursor_position = Position { x: 2, y: 1 };
    type_str(&mut e, "xyz");
    assert_eq!(rows(&e), vec!["hello", "woxyzrld"]);
    assert_eq!(e.cursor_position, Position { x: 5, y: 1 });
    for c in ['q', '\n'] {
        let mut f = editor_with(&["hello", "world"], 80, 24);
        f.cursor_position = Position { x: 3, y: 0 };
        f.process_key(Key::Char(c), 1);
        f.process_key(Key::Backspace, 2);
        assert_eq!(rows(&f), vec!["hello", "world"]);
        assert_eq!(f.cursor_position, Position { x: 3, y: 0 });
    }
}

#[test]
fn editor_save_as_typed_then_erased_aborts() {
    let mut e = empty_editor();
    type_str(&mut e, "x");
    e.process_key(Key::Ctrl('s'), 2);
    type_str(&mut e, "ab");
    e.process_key(Key::Backspace, 3);
    e.process_key(Key::Backspace, 3);
    assert_eq!(e.process_key(Key::Char('\n'), 4), Action::Nothing);
    assert!(e.document.is_dirty());
    assert!(e.document.file_name().is_none());
    assert_eq!(e.status_msg.text, "Save aborted.");
    e.document.sizes_fit();
}
