//! Laws that relate the operations of rows, documents and the editor.
use vstd::prelude::*;
use crate::row::{insert_spec, delete_spec, render_spec};
use crate::document::{doc_insert_spec, doc_delete_spec, is_first_doc_match, row_len_spec, rows_fit};
use crate::editor::{
    Action, Editor, Key, Mode, Position, PromptKind, QUIT_TIMES, Size, edit_spec, ends_prompt,
    in_prompt, key_post, move_spec, prompt_input_spec, scroll_spec,
};
use crate::row::matches_at;

verus! {

/// The row content after typing `cs` at `at`: each character is inserted
/// and the insertion point moves past it.
pub open spec fn type_chars(s: Seq<char>, at: int, cs: Seq<char>) -> Seq<char>
    decreases cs.len(),
{
    if cs.len() == 0 {
        s
    } else {
        type_chars(insert_spec(s, at, cs[0]), at + 1, cs.drop_first())
    }
}

/// Each insertion lengthens a row by exactly one character.
pub proof fn lemma_insert_len(s: Seq<char>, at: int, c: char)
    ensures
        insert_spec(s, at, c).len() == s.len() + 1,
{
}

/// Typing a sequence of characters at a point of a row leaves them there
/// in the order typed, and lengthens the row by their number.
pub proof fn lemma_type_chars(s: Seq<char>, at: int, cs: Seq<char>)
    requires
        0 <= at <= s.len(),
    ensures
        type_chars(s, at, cs) == s.subrange(0, at) + cs + s.subrange(at, s.len() as int),
        type_chars(s, at, cs).len() == s.len() + cs.len(),
    decreases cs.len(),
{
    if cs.len() > 0 {
        let s1 = insert_spec(s, at, cs[0]);
        assert(s1 =~= s.subrange(0, at).push(cs[0]) + s.subrange(at, s.len() as int));
        lemma_type_chars(s1, at + 1, cs.drop_first());
        assert(s1.subrange(0, at + 1) =~= s.subrange(0, at).push(cs[0]));
        assert(s1.subrange(at + 1, s1.len() as int) =~= s.subrange(at, s.len() as int));
        assert(s.subrange(0, at).push(cs[0]) + cs.drop_first() =~= s.subrange(0, at) + cs);
    } else {
        assert(s =~= s.subrange(0, at) + cs + s.subrange(at, s.len() as int));
    }
}

/// Deleting at the index where a character was just inserted gives back
/// the row as it was.
pub proof fn lemma_row_insert_delete(s: Seq<char>, at: int, c: char)
    requires
        0 <= at <= s.len(),
    ensures
        delete_spec(insert_spec(s, at, c), at) == s,
{
    assert(delete_spec(insert_spec(s, at, c), at) =~= s);
}

/// Deleting at the position of a document where a character was just
/// inserted gives back the rows as they were, for any position on an
/// existing row (a newline splits the row there, and the deletion joins
/// it again).
pub proof fn lemma_doc_insert_delete(rows: Seq<Seq<char>>, at: Position, c: char)
    requires
        (at.y as int) < rows.len(),
        (at.x as int) <= rows[at.y as int].len(),
    ensures
        doc_delete_spec(doc_insert_spec(rows, at, c), at) == rows,
{
    let y = at.y as int;
    let r = rows[y];
    let x = at.x as int;
    if c == '\n' {
        let mid = doc_insert_spec(rows, at, c);
        assert(mid[y] == r.subrange(0, x));
        assert(mid[y + 1] == r.subrange(x, r.len() as int));
        assert(r.subrange(0, x) + r.subrange(x, r.len() as int) =~= r);
        assert(doc_delete_spec(mid, at) =~= rows);
    } else {
        lemma_row_insert_delete(r, x, c);
        assert(doc_delete_spec(doc_insert_spec(rows, at, c), at) =~= rows);
    }
}

/// Rendering a row from its first character to its length gives the whole
/// row.
pub proof fn lemma_render_whole(s: Seq<char>)
    ensures
        render_spec(s, 0, s.len() as int) == s,
{
    assert(render_spec(s, 0, s.len() as int) =~= s);
}

/// From any position on a row of the document, moving right and then left
/// comes back to it; at the end of a row the move right wraps to the start
/// of the next and the move left wraps back.
pub proof fn lemma_right_then_left(rows: Seq<Seq<char>>, p: Position, page: usize)
    requires
        rows_fit(rows),
        (p.y as int) < rows.len(),
        (p.x as int) <= row_len_spec(rows, p.y as int),
    ensures
        move_spec(rows, move_spec(rows, p, Key::Right, page), Key::Left, page) == p,
{
}

/// Ctrl-S on a document with no file name opens the file-name prompt;
/// closing it with no name requests no write, and the document keeps its
/// unsaved changes and stays without a name.
pub proof fn lemma_save_without_name(
    e0: Editor,
    e1: Editor,
    e2: Editor,
    key: Key,
    n0: u64,
    n1: u64,
    a0: Action,
    a1: Action,
)
    requires
        e0.mode == Mode::Normal,
        e0.document.name() is None,
        key_post(e0, e1, Key::Ctrl('s'), n0, a0),
        key_post(e1, e2, key, n1, a1),
        ends_prompt(key),
    ensures
        a0 == Action::Nothing,
        a1 == Action::Nothing,
        e2.document@ == e0.document@,
        e2.document.dirty_flag() == e0.document.dirty_flag(),
        e2.document.name() is None,
        e2.mode == Mode::Normal,
        e2.status_msg.text@ == "Save aborted."@,
{
    assert(in_prompt(e1.mode, PromptKind::SaveAs, Seq::empty()));
}

/// Each of the first two Ctrl-Q presses on a document with unsaved
/// changes, with the quit countdown at its start, only counts down; the
/// third quits.
pub proof fn lemma_quit_on_third_press(
    e0: Editor,
    e1: Editor,
    e2: Editor,
    e3: Editor,
    n0: u64,
    n1: u64,
    n2: u64,
    a0: Action,
    a1: Action,
    a2: Action,
)
    requires
        e0.mode == Mode::Normal,
        !e0.shld_quit,
        e0.document.dirty_flag(),
        e0.quit_times == QUIT_TIMES,
        key_post(e0, e1, Key::Ctrl('q'), n0, a0),
        key_post(e1, e2, Key::Ctrl('q'), n1, a1),
        key_post(e2, e3, Key::Ctrl('q'), n2, a2),
    ensures
        !e1.shld_quit,
        e1.quit_times == QUIT_TIMES - 1,
        !e2.shld_quit,
        e2.quit_times == QUIT_TIMES - 2,
        e3.shld_quit,
{
}

/// Whether `p` addresses a place in `rows`: one of its rows or the one
/// past the last, at one of that row's characters or at its end.
pub open spec fn cursor_valid(rows: Seq<Seq<char>>, p: Position) -> bool {
    &&& (p.y as int) <= rows.len()
    &&& (p.x as int) <= row_len_spec(rows, p.y as int)
}

/// Whether the rows leave room for one more row and for one more
/// character in each row.
pub open spec fn rows_have_room(rows: Seq<Seq<char>>) -> bool {
    &&& rows.len() < usize::MAX
    &&& forall|i: int| 0 <= i < rows.len() ==> #[trigger] rows[i].len() < usize::MAX
}

/// Every cursor move from a valid place ends at a valid place.
pub proof fn lemma_move_keeps_cursor_valid(rows: Seq<Seq<char>>, p: Position, key: Key, page: usize)
    requires
        rows_fit(rows),
        cursor_valid(rows, p),
    ensures
        cursor_valid(rows, move_spec(rows, p, key, page)),
{
}

/// Every editing or moving key pressed at a valid place leaves the cursor
/// at a valid place in the edited rows.
pub proof fn lemma_edit_keeps_cursor_valid(rows: Seq<Seq<char>>, p: Position, key: Key, page: usize)
    requires
        rows_have_room(rows),
        cursor_valid(rows, p),
    ensures
        cursor_valid(edit_spec(rows, p, key, page).0, edit_spec(rows, p, key, page).1),
{
    match key {
        Key::Char(c) => {
            let r = doc_insert_spec(rows, p, c);
            assert(rows_fit(r));
            assert(cursor_valid(r, p));
            lemma_move_keeps_cursor_valid(r, p, Key::Right, page);
        },
        Key::Backspace => {
            if p.x > 0 || p.y > 0 {
                let q = move_spec(rows, p, Key::Left, page);
                lemma_move_keeps_cursor_valid(rows, p, Key::Left, page);
                assert(cursor_valid(doc_delete_spec(rows, q), q));
            }
        },
        Key::Delete => {
            assert(cursor_valid(doc_delete_spec(rows, p), p));
        },
        _ => {
            lemma_move_keeps_cursor_valid(rows, p, key, page);
        },
    }
}

/// After scrolling, the cursor lies inside the window.
pub proof fn lemma_scroll_shows_cursor(cursor: Position, offset: Position, size: Size)
    requires
        size.width > 0,
        size.height > 0,
    ensures
        scroll_spec(cursor, offset, size).x <= cursor.x < scroll_spec(cursor, offset, size).x + size.width,
        scroll_spec(cursor, offset, size).y <= cursor.y < scroll_spec(cursor, offset, size).y + size.height,
{
}

/// Whether the editor's cursor addresses a place in its document and lies
/// inside its window.
pub open spec fn cursor_shown(e: Editor) -> bool {
    &&& cursor_valid(e.document@, e.cursor_position)
    &&& e.offset.x <= e.cursor_position.x < e.offset.x + e.size.width
    &&& e.offset.y <= e.cursor_position.y < e.offset.y + e.size.height
}

/// Every key press keeps the cursor at a valid place in the document and
/// inside the window.
pub proof fn lemma_key_keeps_cursor_shown(e: Editor, f: Editor, key: Key, now: u64, a: Action)
    requires
        rows_have_room(e.document@),
        cursor_shown(e),
        key_post(e, f, key, now, a),
    ensures
        cursor_shown(f),
{
    lemma_scroll_shows_cursor(f.cursor_position, e.offset, e.size);
    match e.mode {
        Mode::Normal => {
            if key != Key::Ctrl('q') && key != Key::Ctrl('s') && key != Key::Ctrl('f') {
                lemma_edit_keeps_cursor_valid(e.document@, e.cursor_position, key, e.size.height);
            }
        },
        Mode::Prompt { kind, input } => {
            let q = prompt_input_spec(input@, key);
            if is_first_doc_match(e.document@, q, Some(f.cursor_position)) {
                assert(matches_at(e.document@[f.cursor_position.y as int], q, f.cursor_position.x as int));
            }
        },
    }
}

/// Closing the file-name prompt with nothing in it, by Esc or by Enter,
/// whatever was typed and erased before, requests no write and leaves the
/// document as it was, unsaved changes and lack of a name included.
pub proof fn lemma_save_as_closed_empty(
    e: Editor,
    f: Editor,
    input: Seq<char>,
    key: Key,
    now: u64,
    a: Action,
)
    requires
        in_prompt(e.mode, PromptKind::SaveAs, input),
        key_post(e, f, key, now, a),
        ends_prompt(key),
        prompt_input_spec(input, key).len() == 0,
    ensures
        a == Action::Nothing,
        f.document@ == e.document@,
        f.document.dirty_flag() == e.document.dirty_flag(),
        f.document.name() == e.document.name(),
        f.mode == Mode::Normal,
        f.status_msg.text@ == "Save aborted."@,
{
}

/// Typing a character and then pressing Backspace, outside a prompt and
/// at a place on an existing row, gives back the rows and the cursor as
/// they were.
pub proof fn lemma_char_then_backspace(
    e0: Editor,
    e1: Editor,
    e2: Editor,
    c: char,
    n0: u64,
    n1: u64,
    a0: Action,
    a1: Action,
)
    requires
        e0.mode == Mode::Normal,
        rows_have_room(e0.document@),
        (e0.cursor_position.y as int) < e0.document@.len(),
        (e0.cursor_position.x as int) <= e0.document@[e0.cursor_position.y as int].len(),
        key_post(e0, e1, Key::Char(c), n0, a0),
        key_post(e1, e2, Key::Backspace, n1, a1),
    ensures
        e2.document@ == e0.document@,
        e2.cursor_position == e0.cursor_position,
{
    let rows = e0.document@;
    let p = e0.cursor_position;
    let h = e0.size.height;
    let r = doc_insert_spec(rows, p, c);
    assert(rows_fit(r));
    assert(cursor_valid(r, p));
    lemma_right_then_left(r, p, h);
    lemma_doc_insert_delete(rows, p, c);
}

/// The rows after typing `cs` at column `x` of row `y`.
pub open spec fn typed_rows(rows: Seq<Seq<char>>, x: int, y: int, cs: Seq<char>) -> Seq<Seq<char>> {
    rows.update(y, rows[y].subrange(0, x) + cs + rows[y].subrange(x, rows[y].len() as int))
}

/// Typing the first `k` of the characters `cs`, outside a prompt, at a
/// place on an existing row: see `lemma_typing`.
proof fn lemma_typing_prefix(es: Seq<Editor>, cs: Seq<char>, nows: Seq<u64>, acts: Seq<Action>, k: int)
    requires
        es.len() == cs.len() + 1,
        nows.len() == cs.len(),
        acts.len() == cs.len(),
        0 <= k <= cs.len(),
        es[0].mode == Mode::Normal,
        rows_fit(es[0].document@),
        (es[0].cursor_position.y as int) < es[0].document@.len(),
        (es[0].cursor_position.x as int) <= es[0].document@[es[0].cursor_position.y as int].len(),
        es[0].document@[es[0].cursor_position.y as int].len() + cs.len() <= usize::MAX,
        forall|i: int| 0 <= i < cs.len() ==> #[trigger] cs[i] != '\n',
        forall|i: int|
            0 <= i < cs.len() ==> key_post(#[trigger] es[i], es[i + 1], Key::Char(cs[i]), nows[i], acts[i]),
    ensures
        es[k].mode == Mode::Normal,
        es[k].document@ == typed_rows(
            es[0].document@,
            es[0].cursor_position.x as int,
            es[0].cursor_position.y as int,
            cs.subrange(0, k),
        ),
        es[k].cursor_position == (Position {
            x: (es[0].cursor_position.x + k) as usize,
            y: es[0].cursor_position.y,
        }),
    decreases k,
{
    let rows = es[0].document@;
    let x = es[0].cursor_position.x as int;
    let y = es[0].cursor_position.y as int;
    let s = rows[y];
    if k == 0 {
        assert(typed_rows(rows, x, y, cs.subrange(0, 0)) =~= rows) by {
            assert(s.subrange(0, x) + cs.subrange(0, 0) + s.subrange(x, s.len() as int) =~= s);
        }
    } else {
        lemma_typing_prefix(es, cs, nows, acts, k - 1);
        assert(key_post(es[k - 1], es[k], Key::Char(cs[k - 1]), nows[k - 1], acts[k - 1]));
        assert(cs.subrange(0, k) =~= cs.subrange(0, k - 1).push(cs[k - 1]));
        lemma_typing_step(es[k - 1], es[k], rows, x, y, cs.subrange(0, k - 1), cs[k - 1], nows[k - 1], acts[k - 1]);
    }
}

/// One key of `lemma_typing_prefix`.
proof fn lemma_typing_step(
    e: Editor,
    f: Editor,
    rows: Seq<Seq<char>>,
    x: int,
    y: int,
    typed: Seq<char>,
    c: char,
    now: u64,
    a: Action,
)
    requires
        e.mode == Mode::Normal,
        rows_fit(rows),
        0 <= y < rows.len(),
        0 <= x <= rows[y].len(),
        rows[y].len() + typed.len() + 1 <= usize::MAX,
        c != '\n',
        e.document@ == typed_rows(rows, x, y, typed),
        e.cursor_position == (Position { x: (x + typed.len()) as usize, y: y as usize }),
        key_post(e, f, Key::Char(c), now, a),
    ensures
        f.mode == Mode::Normal,
        f.document@ == typed_rows(rows, x, y, typed.push(c)),
        f.cursor_position == (Position { x: (x + typed.len() + 1) as usize, y: y as usize }),
{
    let s = rows[y];
    let k = typed.len();
    let before = s.subrange(0, x) + typed + s.subrange(x, s.len() as int);
    let after = s.subrange(0, x) + typed.push(c) + s.subrange(x, s.len() as int);
    let p = e.cursor_position;
    assert(insert_spec(before, x + k, c) =~= after);
    let r = doc_insert_spec(e.document@, p, c);
    assert(r =~= typed_rows(rows, x, y, typed.push(c)));
    assert(row_len_spec(r, y) == s.len() + k + 1);
}

/// Typing characters other than a newline, outside a prompt, at a place on
/// an existing row, lengthens that row by one for each key and leaves the
/// characters in it in the order typed, with the cursor just past them;
/// the other rows stay as they were.
pub proof fn lemma_typing(es: Seq<Editor>, cs: Seq<char>, nows: Seq<u64>, acts: Seq<Action>)
    requires
        es.len() == cs.len() + 1,
        nows.len() == cs.len(),
        acts.len() == cs.len(),
        es[0].mode == Mode::Normal,
        rows_fit(es[0].document@),
        (es[0].cursor_position.y as int) < es[0].document@.len(),
        (es[0].cursor_position.x as int) <= es[0].document@[es[0].cursor_position.y as int].len(),
        es[0].document@[es[0].cursor_position.y as int].len() + cs.len() <= usize::MAX,
        forall|i: int| 0 <= i < cs.len() ==> #[trigger] cs[i] != '\n',
        forall|i: int|
            0 <= i < cs.len() ==> key_post(#[trigger] es[i], es[i + 1], Key::Char(cs[i]), nows[i], acts[i]),
    ensures
        forall|k: int|
            0 <= k <= cs.len() ==> (#[trigger] es[k]).document@ == typed_rows(
                es[0].document@,
                es[0].cursor_position.x as int,
                es[0].cursor_position.y as int,
                cs.subrange(0, k),
            ) && es[k].document@.len() == es[0].document@.len()
                && es[k].document@[es[0].cursor_position.y as int].len()
                == es[0].document@[es[0].cursor_position.y as int].len() + k
                && es[k].cursor_position == (Position {
                x: (es[0].cursor_position.x + k) as usize,
                y: es[0].cursor_position.y,
            }),
{
    assert forall|k: int| 0 <= k <= cs.len() implies (#[trigger] es[k]).document@ == typed_rows(
        es[0].document@,
        es[0].cursor_position.x as int,
        es[0].cursor_position.y as int,
        cs.subrange(0, k),
    ) && es[k].document@.len() == es[0].document@.len()
        && es[k].document@[es[0].cursor_position.y as int].len()
        == es[0].document@[es[0].cursor_position.y as int].len() + k
        && es[k].cursor_position == (Position {
        x: (es[0].cursor_position.x + k) as usize,
        y: es[0].cursor_position.y,
    }) by {
        lemma_typing_prefix(es, cs, nows, acts, k);
    }
}

} // verus!
