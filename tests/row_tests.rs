use typotamer::row::Row;

fn text(r: &Row) -> String {
    r.as_string()
}

#[test]
fn row_from_counts_chars_not_bytes() {
    let r = Row::from("héllo");
    assert_eq!(r.len(), 5);
    assert!(!r.is_empty());
    assert!(Row::from("").is_empty());
}

#[test]
fn row_insert_clamps_index() {
    let mut r = Row::from("ac");
    r.insert(1, 'b');
    assert_eq!(text(&r), "abc");
    r.insert(100, 'd');
    assert_eq!(text(&r), "abcd");
    r.insert(0, '_');
    assert_eq!(text(&r), "_abcd");
}

#[test]
fn row_delete_out_of_range_is_noop() {
    let mut r = Row::from("abc");
    r.delete(1);
    assert_eq!(text(&r), "ac");
    r.delete(2);
    assert_eq!(text(&r), "ac");
    r.delete(99);
    assert_eq!(text(&r), "ac");
}

#[test]
fn row_append_and_split() {
    let mut r = Row::from("hello");
    r.append(&Row::from("world"));
    assert_eq!(text(&r), "helloworld");
    let tail = r.split(5);
    assert_eq!(text(&r), "hello");
    assert_eq!(text(&tail), "world");
    let empty_tail = r.split(50);
    assert_eq!(text(&r), "hello");
    assert!(empty_tail.is_empty());
}

#[test]
fn row_find_from_start() {
    let r = Row::from("abcabc");
    let q: Vec<char> = "bc".chars().collect();
    assert_eq!(r.find(&q, 0), Some(1));
    assert_eq!(r.find(&q, 2), Some(4));
    assert_eq!(r.find(&q, 5), None);
    let missing: Vec<char> = "cb".chars().collect();
    assert_eq!(r.find(&missing, 0), None);
    let upper: Vec<char> = "BC".chars().collect();
    assert_eq!(r.find(&upper, 0), None);
}

#[test]
fn row_render_windows_and_clamps() {
    let r = Row::from("hello");
    assert_eq!(r.render(1, 3), "el");
    assert_eq!(r.render(3, 100), "lo");
    assert_eq!(r.render(4, 2), "");
    assert_eq!(r.render(10, 20), "");
}

#[test]
fn row_render_whole_row_is_unchanged() {
    for s in ["", "a", "hello world", "ünïcödé"] {
        let r = Row::from(s);
        assert_eq!(r.render(0, r.len()), s);
    }
}

#[test]
fn row_typing_keeps_order_and_grows_by_one() {
    let mut r = Row::from("[]");
    let mut at = 1;
    for (k, c) in "xyz".chars().enumerate() {
        r.insert(at, c);
        at += 1;
        assert_eq!(r.len(), 3 + k);
    }
    assert_eq!(text(&r), "[xyz]");
}

#[test]
fn row_insert_then_delete_restores() {
    let before = "hello";
    for i in 0..=5 {
        let mut r = Row::from(before);
        r.insert(i, 'X');
        r.delete(i);
        assert_eq!(text(&r), before);
    }
}
