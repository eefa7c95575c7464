//! What the editor puts on the screen: the text area line by line, the
//! status bar, the message bar and the cursor's place on screen.
use vstd::prelude::*;
use crate::row::{Row, chars_of, render_spec, string_of_chars};
use crate::editor::{Editor, Position, decimal, decimal_spec};

verus! {

/// The first `n` characters of `s`, or all of `s` when it is shorter.
pub open spec fn truncate_spec(s: Seq<char>, n: nat) -> Seq<char> {
    if s.len() > n {
        s.subrange(0, n as int)
    } else {
        s
    }
}

/// `n` spaces.
pub open spec fn spaces_spec(n: nat) -> Seq<char> {
    Seq::new(n, |i: int| ' ')
}

/// The left part of the status bar: the file name (at most 20 characters,
/// `[No Name]` when there is none), the number of rows, and a mark for
/// unsaved changes.
pub open spec fn status_left(name: Option<String>, rows: nat, dirty: bool) -> Seq<char> {
    let n = match name {
        Some(s) => truncate_spec(s@, 20),
        None => "[No Name]"@,
    };
    n + " - "@ + decimal_spec(rows) + " lines "@ + (if dirty { "(modified)"@ } else { Seq::empty() })
}

/// The right part of the status bar: the cursor's row and column,
/// counted from one.
pub open spec fn status_right(p: Position) -> Seq<char> {
    decimal_spec(p.y.saturating_add(1) as nat) + ":"@ + decimal_spec(p.x.saturating_add(1) as nat)
}

/// The status bar: its left part, padded with spaces so that its right
/// part ends at column `width`, all cut to `width` characters.
pub open spec fn status_bar_spec(left: Seq<char>, right: Seq<char>, width: nat) -> Seq<char> {
    let pad = if left.len() + right.len() < width { (width - left.len() - right.len()) as nat } else { 0 };
    truncate_spec(left + spaces_spec(pad) + right, width)
}

/// The welcome line for a window `width` wide: a tilde, then `msg`
/// centred, cut to `width` characters.
pub open spec fn welcome_spec(msg: Seq<char>, width: nat) -> Seq<char> {
    let padding: int = if width > msg.len() { (width - msg.len()) / 2 } else { 0 };
    let n: int = if padding > 1 { padding - 1 } else { 0 };
    truncate_spec(seq!['~'] + spaces_spec(n as nat) + msg, width)
}

/// The welcome message for version `version`.
pub open spec fn welcome_message(version: Seq<char>) -> Seq<char> {
    "TypoTamer -- version "@ + version
        + ". If u find any bugs/issues try not to create it again(I aint responsible for those)"@
}

/// The first `n` characters of `v`.
fn truncated(v: &Vec<char>, n: usize) -> (r: Vec<char>)
    ensures
        r@ == truncate_spec(v@, n as nat),
{
    let mut r: Vec<char> = Vec::new();
    let mut i: usize = 0;
    while i < n && i < v.len()
        invariant
            i <= v@.len(),
            i <= n,
            r@ == v@.subrange(0, i as int),
        decreases n - i,
    {
        r.push(v[i]);
        i = i + 1;
        assert(r@ =~= v@.subrange(0, i as int));
    }
    assert(r@ =~= truncate_spec(v@, n as nat));
    r
}

/// Appends `n` spaces to `v`.
fn push_spaces(v: &mut Vec<char>, n: usize)
    ensures
        final(v)@ == old(v)@ + spaces_spec(n as nat),
{
    let mut i: usize = 0;
    while i < n
        invariant
            i <= n,
            v@ == old(v)@ + spaces_spec(i as nat),
        decreases n - i,
    {
        v.push(' ');
        i = i + 1;
        assert(v@ =~= old(v)@ + spaces_spec(i as nat));
    }
}

impl Editor {
    /// The part of `row` that the viewport shows.
    pub fn row_window(&self, row: &Row) -> (r: String)
        ensures
            r@ == render_spec(
                row@,
                self.offset.x as int,
                self.offset.x.saturating_add(self.size.width) as int,
            ),
    {
        row.render(self.offset.x, self.offset.x.saturating_add(self.size.width))
    }

    /// The welcome line, naming version `version`.
    pub fn welcome_line(&self, version: &str) -> (r: String)
        ensures
            r@ == welcome_spec(
                welcome_message(version@),
                self.size.width as nat,
            ),
    {
        let mut msg = chars_of("TypoTamer -- version ");
        msg.extend_from_slice(chars_of(version).as_slice());
        msg.extend_from_slice(
            chars_of(". If u find any bugs/issues try not to create it again(I aint responsible for those)").as_slice(),
        );
        let width = self.size.width;
        let len = msg.len();
        let padding = width.saturating_sub(len) / 2;
        let mut line = vec!['~'];
        push_spaces(&mut line, padding.saturating_sub(1));
        line.extend_from_slice(msg.as_slice());
        string_of_chars(truncated(&line, width).as_slice())
    }

    /// The line shown at row `screen_row` of the text area: the document
    /// row there, through the viewport; else, in an empty document, the
    /// welcome line a third of the way down; else a tilde.
    pub fn text_line(&self, screen_row: usize, version: &str) -> (r: String)
        ensures
            screen_row + self.offset.y < self.document@.len() ==> r@ == render_spec(
                self.document@[screen_row + self.offset.y],
                self.offset.x as int,
                self.offset.x.saturating_add(self.size.width) as int,
            ),
            screen_row + self.offset.y >= self.document@.len() && self.document@.len() == 0
                && screen_row == self.size.height / 3 ==> r@ == welcome_spec(
                welcome_message(version@),
                self.size.width as nat,
            ),
            screen_row + self.offset.y >= self.document@.len() && !(self.document@.len() == 0
                && screen_row == self.size.height / 3) ==> r@ == "~"@,
    {
        let rows = self.document.len();
        let y = if screen_row <= usize::MAX - self.offset.y { Some(screen_row + self.offset.y) } else { None };
        let row = match y {
            Some(y) => self.document.row(y),
            None => None,
        };
        match row {
            Some(row) => self.row_window(row),
            None => {
                if rows == 0 && screen_row == self.size.height / 3 {
                    self.welcome_line(version)
                } else {
                    String::from_str("~")
                }
            },
        }
    }

    /// The left part of the status bar; see `status_left`.
    fn status_left_text(&self) -> (r: Vec<char>)
        ensures
            r@ == status_left(self.document.name(), self.document@.len(), self.document.dirty_flag()),
    {
        let mut left = match self.document.file_name() {
            Some(name) => truncated(&chars_of(name.as_str()), 20),
            None => chars_of("[No Name]"),
        };
        left.extend_from_slice(chars_of(" - ").as_slice());
        left.extend_from_slice(decimal(self.document.len() as u64).as_slice());
        left.extend_from_slice(chars_of(" lines ").as_slice());
        if self.document.is_dirty() {
            left.extend_from_slice(chars_of("(modified)").as_slice());
        } else {
            assert(left@ + Seq::<char>::empty() =~= left@);
        }
        left
    }

    /// The right part of the status bar; see `status_right`.
    fn status_right_text(&self) -> (r: Vec<char>)
        ensures
            r@ == status_right(self.cursor_position),
    {
        let mut right = decimal(self.cursor_position.y.saturating_add(1) as u64);
        right.extend_from_slice(chars_of(":").as_slice());
        right.extend_from_slice(decimal(self.cursor_position.x.saturating_add(1) as u64).as_slice());
        right
    }

    /// The status bar; see `status_bar_spec`.
    pub fn status_bar(&self) -> (r: String)
        ensures
            r@ == status_bar_spec(
                status_left(self.document.name(), self.document@.len(), self.document.dirty_flag()),
                status_right(self.cursor_position),
                self.size.width as nat,
            ),
    {
        let mut line = self.status_left_text();
        let right = self.status_right_text();
        let width = self.size.width;
        let ll = line.len();
        let rl = right.len();
        if ll < width && rl < width - ll {
            push_spaces(&mut line, width - ll - rl);
        } else {
            push_spaces(&mut line, 0);
        }
        line.extend_from_slice(right.as_slice());
        string_of_chars(truncated(&line, width).as_slice())
    }

    /// The message bar at time `now`: the status message cut to the
    /// window's width while it is fresh, else nothing.
    pub fn message_line(&self, now: u64) -> (r: String)
        ensures
            self.status_msg.is_visible_spec(now) ==> r@ == truncate_spec(
                self.status_msg.text@,
                self.size.width as nat,
            ),
            !self.status_msg.is_visible_spec(now) ==> r@ == Seq::<char>::empty(),
    {
        if self.status_msg.is_visible(now) {
            string_of_chars(truncated(&chars_of(self.status_msg.text.as_str()), self.size.width).as_slice())
        } else {
            String::new()
        }
    }

    /// Where the cursor stands on screen: its document position less the
    /// viewport offset.
    pub fn screen_cursor(&self) -> (r: Position)
        ensures
            r == (Position {
                x: self.cursor_position.x.saturating_sub(self.offset.x),
                y: self.cursor_position.y.saturating_sub(self.offset.y),
            }),
    {
        Position {
            x: self.cursor_position.x.saturating_sub(self.offset.x),
            y: self.cursor_position.y.saturating_sub(self.offset.y),
        }
    }
}

} // verus!
