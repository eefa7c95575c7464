//! The text buffer: an ordered sequence of rows, the file it belongs to, and
//! whether it holds unsaved changes.
use vstd::prelude::*;
use crate::editor::Position;
use crate::row::{Row, chars_of, insert_spec, delete_spec, clamp, is_first_match, occurs_from, string_of_chars};

verus! {

/// The rows after inserting `c` at `at`: a newline splits the row (or, at
/// the end of the document, adds an empty row); any other character goes
/// into its row, which is created first when `at` is one past the last row.
/// Positions further down leave the rows unchanged.
pub open spec fn doc_insert_spec(rows: Seq<Seq<char>>, at: Position, c: char) -> Seq<Seq<char>> {
    let y = at.y as int;
    if y > rows.len() {
        rows
    } else if c == '\n' {
        if y == rows.len() {
            rows.push(Seq::empty())
        } else {
            let r = rows[y];
            let i = clamp(at.x as int, r.len() as int);
            rows.subrange(0, y).push(r.subrange(0, i)).push(r.subrange(i, r.len() as int))
                + rows.subrange(y + 1, rows.len() as int)
        }
    } else if y == rows.len() {
        rows.push(seq![c])
    } else {
        rows.update(y, insert_spec(rows[y], at.x as int, c))
    }
}

/// The rows after deleting at `at`: at or past the end of a row that has a
/// successor, the two rows are joined; otherwise the character at `at.x` is
/// removed, if there is one.
pub open spec fn doc_delete_spec(rows: Seq<Seq<char>>, at: Position) -> Seq<Seq<char>> {
    let y = at.y as int;
    if y >= rows.len() {
        rows
    } else if at.x >= rows[y].len() && y + 1 < rows.len() {
        rows.subrange(0, y).push(rows[y] + rows[y + 1]) + rows.subrange(y + 2, rows.len() as int)
    } else {
        rows.update(y, delete_spec(rows[y], at.x as int))
    }
}

/// Whether a position is within the document, one row past the end
/// included.
pub open spec fn doc_edit_in_range(rows: Seq<Seq<char>>, at: Position, deleting: bool) -> bool {
    if deleting {
        (at.y as int) < rows.len()
    } else {
        (at.y as int) <= rows.len()
    }
}

/// `r` is where `q` first occurs in `rows`: the first row that holds it, at
/// its first occurrence there; `None` when no row holds it.
pub open spec fn is_first_doc_match(rows: Seq<Seq<char>>, q: Seq<char>, r: Option<Position>) -> bool {
    match r {
        Some(p) => {
            &&& (p.y as int) < rows.len()
            &&& is_first_match(rows[p.y as int], q, 0, Some(p.x))
            &&& forall|y: int| 0 <= y < p.y ==> !occurs_from(#[trigger] rows[y], q, 0)
        },
        None => forall|y: int| 0 <= y < rows.len() ==> !occurs_from(#[trigger] rows[y], q, 0),
    }
}

/// The text of `rows` as saved: each row followed by a newline.
pub open spec fn text_of(rows: Seq<Seq<char>>) -> Seq<char>
    decreases rows.len(),
{
    if rows.len() == 0 {
        Seq::empty()
    } else {
        text_of(rows.drop_last()) + rows.last().push('\n')
    }
}

/// A line without one trailing carriage return.
pub open spec fn strip_cr(l: Seq<char>) -> Seq<char> {
    if l.len() > 0 && l.last() == '\r' {
        l.drop_last()
    } else {
        l
    }
}

/// Reading the first `i` characters of `s`: the lines completed so far and
/// the line in progress.
pub open spec fn scan_lines(s: Seq<char>, i: int) -> (Seq<Seq<char>>, Seq<char>)
    decreases i,
{
    if i <= 0 {
        (Seq::empty(), Seq::empty())
    } else {
        let (done, cur) = scan_lines(s, i - 1);
        if s[i - 1] == '\n' {
            (done.push(strip_cr(cur)), Seq::empty())
        } else {
            (done, cur.push(s[i - 1]))
        }
    }
}

/// The lines of `s`: split at each `\n` (a `\r` before it dropped), with a
/// last line that has no terminator kept when it is not empty.
pub open spec fn lines_of(s: Seq<char>) -> Seq<Seq<char>> {
    let (done, cur) = scan_lines(s, s.len() as int);
    if cur.len() > 0 {
        done.push(cur)
    } else {
        done
    }
}

/// An ordered sequence of rows, with an optional file name and a flag that
/// marks unsaved changes.
#[derive(Clone, Debug)]
pub struct Document {
    rows: Vec<Row>,
    file_name: Option<String>,
    dirty: bool,
}

impl View for Document {
    type V = Seq<Seq<char>>;

    closed spec fn view(&self) -> Seq<Seq<char>> {
        self.rows@.map_values(|r: Row| r@)
    }
}

impl Document {
    /// Whether the document holds changes that were not saved.
    pub closed spec fn dirty_flag(&self) -> bool {
        self.dirty
    }

    /// The name of the file the document belongs to.
    pub closed spec fn name(&self) -> Option<String> {
        self.file_name
    }

    /// The name of the file the document belongs to.
    pub fn file_name(&self) -> (r: &Option<String>)
        ensures
            *r == self.name(),
    {
        &self.file_name
    }

    /// Names the file the document belongs to.
    pub fn set_file_name(&mut self, name: String)
        ensures
            final(self)@ == old(self)@,
            final(self).name() == Some(name),
            final(self).dirty_flag() == old(self).dirty_flag(),
    {
        self.file_name = Some(name);
    }

    /// An empty document with no file name.
    pub fn default() -> (d: Document)
        ensures
            d@ == Seq::<Seq<char>>::empty(),
            d.name().is_none(),
            !d.dirty_flag(),
    {
        let d = Document { rows: Vec::new(), file_name: None, dirty: false };
        assert(d@ =~= Seq::<Seq<char>>::empty());
        d
    }

    /// A clean document named `file_name` whose rows are the lines of
    /// `text`.
    pub fn from_text(file_name: String, text: &str) -> (d: Document)
        ensures
            d@ == lines_of(text@),
            d.name() == Some(file_name),
            !d.dirty_flag(),
    {
        let chars = chars_of(text);
        let n = chars.len();
        let mut rows: Vec<Row> = Vec::new();
        let mut cur: Vec<char> = Vec::new();
        let mut i: usize = 0;
        while i < n
            invariant
                n == text@.len(),
                chars@ == text@,
                i <= n,
                scan_lines(text@, i as int) == (rows@.map_values(|r: Row| r@), cur@),
            decreases n - i,
        {
            let c = chars[i];
            if c == '\n' {
                let ghost before = cur@;
                let clen = cur.len();
                if clen > 0 && cur[clen - 1] == '\r' {
                    cur.pop();
                }
                assert(cur@ =~= strip_cr(before));
                rows.push(Row::from_chars(cur));
                cur = Vec::new();
            } else {
                cur.push(c);
            }
            i = i + 1;
            assert(scan_lines(text@, i as int) =~= (rows@.map_values(|r: Row| r@), cur@));
        }
        if cur.len() > 0 {
            rows.push(Row::from_chars(cur));
        }
        let d = Document { rows, file_name: Some(file_name), dirty: false };
        assert(d@ =~= lines_of(text@));
        d
    }

    /// The number of rows.
    pub fn len(&self) -> (r: usize)
        ensures
            r == self@.len(),
    {
        self.rows.len()
    }

    /// Whether the document has no rows.
    pub fn is_empty(&self) -> (r: bool)
        ensures
            r == (self@.len() == 0),
    {
        self.rows.len() == 0
    }

    /// Whether the document holds changes that were not saved.
    pub fn is_dirty(&self) -> (r: bool)
        ensures
            r == self.dirty_flag(),
    {
        self.dirty
    }

    /// The row at index `y`, or `None` past the end of the document.
    pub fn row(&self, y: usize) -> (r: Option<&Row>)
        ensures
            match r {
                Some(row) => (y as int) < self@.len() && row@ == self@[y as int],
                None => (y as int) >= self@.len(),
            },
    {
        if y < self.rows.len() {
            Some(&self.rows[y])
        } else {
            None
        }
    }

    /// The number of characters in row `y`, or 0 past the end of the
    /// document.
    pub fn row_len(&self, y: usize) -> (r: usize)
        ensures
            r == row_len_spec(self@, y as int),
    {
        if y < self.rows.len() {
            self.rows[y].len()
        } else {
            0
        }
    }

    /// Inserts `c` at `at`; see `doc_insert_spec`. Marks the document dirty
    /// when `at` is within it or one row past its end.
    pub fn insert(&mut self, at: &Position, c: char)
        ensures
            final(self)@ == doc_insert_spec(old(self)@, *at, c),
            final(self).name() == old(self).name(),
            final(self).dirty_flag() == (old(self).dirty_flag() || doc_edit_in_range(old(self)@, *at, false)),
    {
        let len = self.rows.len();
        let y = at.y;
        if y > len {
            return;
        }
        self.dirty = true;
        let ghost old_rows = old(self)@;
        if c == '\n' {
            if y == len {
                self.rows.push(Row::new());
            } else {
                let mut row = self.rows.remove(y);
                let tail = row.split(at.x);
                self.rows.insert(y, row);
                self.rows.insert(y + 1, tail);
                let ghost r = old_rows[y as int];
                let ghost i = clamp(at.x as int, r.len() as int);
                assert(self@ =~= old_rows.subrange(0, y as int).push(r.subrange(0, i)).push(
                    r.subrange(i, r.len() as int)) + old_rows.subrange(y + 1, old_rows.len() as int));
            }
        } else if y == len {
            let mut row = Row::new();
            row.insert(0, c);
            self.rows.push(row);
        } else {
            let mut row = self.rows.remove(y);
            row.insert(at.x, c);
            self.rows.insert(y, row);
            assert(self@ =~= old_rows.update(y as int, insert_spec(old_rows[y as int], at.x as int, c)));
        }
        assert(self@ =~~= doc_insert_spec(old_rows, *at, c));
    }

    /// Deletes at `at`; see `doc_delete_spec`. Marks the document dirty when
    /// `at` is on one of its rows.
    pub fn delete(&mut self, at: &Position)
        ensures
            final(self)@ == doc_delete_spec(old(self)@, *at),
            final(self).name() == old(self).name(),
            final(self).dirty_flag() == (old(self).dirty_flag() || doc_edit_in_range(old(self)@, *at, true)),
    {
        let len = self.rows.len();
        let y = at.y;
        if y >= len {
            return;
        }
        self.dirty = true;
        let ghost old_rows = old(self)@;
        if at.x >= self.rows[y].len() && y + 1 < len {
            let next = self.rows.remove(y + 1);
            let mut row = self.rows.remove(y);
            row.append(&next);
            self.rows.insert(y, row);
        } else {
            let mut row = self.rows.remove(y);
            row.delete(at.x);
            self.rows.insert(y, row);
        }
        assert(self@ =~= doc_delete_spec(old_rows, *at));
    }

    /// The position of the first occurrence of `query`. The search always
    /// starts at the first row and runs forward to the end of the document,
    /// without wrapping; the editor does not pass its cursor as an anchor.
    pub fn find(&self, query: &str) -> (r: Option<Position>)
        ensures
            is_first_doc_match(self@, query@, r),
    {
        let q = chars_of(query);
        let n = self.rows.len();
        let mut y: usize = 0;
        while y < n
            invariant
                n == self@.len(),
                q@ == query@,
                y <= n,
                forall|k: int| 0 <= k < y ==> !occurs_from(#[trigger] self@[k], query@, 0),
            decreases n - y,
        {
            match self.rows[y].find(&q, 0) {
                Some(x) => {
                    return Some(Position { x, y });
                },
                None => {},
            }
            y = y + 1;
        }
        None
    }

    /// The document's text as saved: each row followed by a newline.
    pub fn text(&self) -> (r: String)
        ensures
            r@ == text_of(self@),
    {
        let n = self.rows.len();
        let mut out: Vec<char> = Vec::new();
        let mut y: usize = 0;
        while y < n
            invariant
                n == self@.len(),
                y <= n,
                out@ == text_of(self@.subrange(0, y as int)),
            decreases n - y,
        {
            out.extend_from_slice(self.rows[y].chars().as_slice());
            out.push('\n');
            y = y + 1;
            assert(self@.subrange(0, y as int).drop_last() =~= self@.subrange(0, y - 1));
            assert(out@ =~= text_of(self@.subrange(0, y as int)));
        }
        assert(self@.subrange(0, n as int) =~= self@);
        string_of_chars(out.as_slice())
    }

    /// Reads the number of rows and the length of each, which shows that
    /// they fit in a `usize`.
    pub fn sizes_fit(&self)
        ensures
            rows_fit(self@),
    {
        let n = self.rows.len();
        let mut y: usize = 0;
        while y < n
            invariant
                n == self@.len(),
                y <= n,
                forall|i: int| 0 <= i < y ==> #[trigger] self@[i].len() <= usize::MAX,
            decreases n - y,
        {
            let _ = self.rows[y].len();
            y = y + 1;
        }
    }

    /// Records that the document's text was written out: it is no longer
    /// dirty.
    pub fn mark_saved(&mut self)
        ensures
            final(self)@ == old(self)@,
            final(self).name() == old(self).name(),
            !final(self).dirty_flag(),
    {
        self.dirty = false;
    }
}

/// Whether the number of rows, and the length of each, fits in a `usize`.
pub open spec fn rows_fit(rows: Seq<Seq<char>>) -> bool {
    &&& rows.len() <= usize::MAX
    &&& forall|i: int| 0 <= i < rows.len() ==> #[trigger] rows[i].len() <= usize::MAX
}

/// The length of row `y`, or 0 past the end of the document.
pub open spec fn row_len_spec(rows: Seq<Seq<char>>, y: int) -> int {
    if 0 <= y < rows.len() {
        rows[y].len() as int
    } else {
        0
    }
}

} // verus!
