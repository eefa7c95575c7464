//! The editor state machine: a cursor and a viewport over a document, the
//! key dispatch that edits the document and moves the cursor, and the
//! prompts for a file name and for a search query.
use vstd::prelude::*;
use crate::document::{Document, doc_insert_spec, doc_delete_spec, is_first_doc_match, row_len_spec};
use crate::row::{chars_of, string_of_chars};

verus! {

/// The number of Ctrl-Q presses that quit a document with unsaved changes.
pub const QUIT_TIMES: u8 = 3;

/// How long, in milliseconds, a status message stays on screen.
pub const MESSAGE_LIFETIME_MS: u64 = 5000;

/// A coordinate: `x` is the column (character offset), `y` the row.
#[derive(Clone, Copy, Debug, Default, PartialEq, Eq, Structural)]
pub struct Position {
    pub x: usize,
    pub y: usize,
}

/// The size of the text area of the terminal, in character cells.
#[derive(Clone, Copy, Debug, PartialEq, Eq, Structural)]
pub struct Size {
    pub width: usize,
    pub height: usize,
}

/// A key press.
#[derive(Clone, Copy, Debug, PartialEq, Eq, Structural)]
pub enum Key {
    Char(char),
    Ctrl(char),
    Backspace,
    Delete,
    Esc,
    Up,
    Down,
    Left,
    Right,
    Home,
    End,
    PageUp,
    PageDown,
    Other,
}

/// What the caller of `process_key` has to do next.
#[derive(Clone, Copy, Debug, PartialEq, Eq, Structural)]
pub enum Action {
    /// Nothing.
    Nothing,
    /// Write the document's text to its file, then report the outcome with
    /// `Editor::save_finished`.
    Save,
}

/// What a prompt asks for.
#[derive(Clone, Copy, Debug, PartialEq, Eq, Structural)]
pub enum PromptKind {
    SaveAs,
    Search,
}

/// Whether the editor takes keys as edits or as input to a prompt.
#[derive(Clone, Debug)]
pub enum Mode {
    Normal,
    Prompt { kind: PromptKind, input: Vec<char> },
}

/// A status message and the time, in milliseconds, at which it was set.
#[derive(Clone, Debug)]
pub struct StatusMsg {
    pub text: String,
    pub time: u64,
}

impl StatusMsg {
    /// A message set at time `time`.
    pub fn from(msg: String, time: u64) -> (r: StatusMsg)
        ensures
            r.text == msg,
            r.time == time,
    {
        StatusMsg { text: msg, time }
    }

    /// Whether the message is still shown at time `now`: it fades after
    /// five seconds.
    pub open spec fn is_visible_spec(&self, now: u64) -> bool {
        now.saturating_sub(self.time) < MESSAGE_LIFETIME_MS
    }

    /// Whether the message is still shown at time `now`: it fades after
    /// five seconds.
    pub fn is_visible(&self, now: u64) -> (r: bool)
        ensures
            r == self.is_visible_spec(now),
    {
        now.saturating_sub(self.time) < MESSAGE_LIFETIME_MS
    }
}

/// Whether `c` is a control character (general category Cc).
pub open spec fn is_control_spec(c: char) -> bool {
    (c as u32) < 0x20 || (0x7f <= (c as u32) && (c as u32) <= 0x9f)
}

/// Whether `c` is a control character (general category Cc).
pub fn is_control(c: char) -> (r: bool)
    ensures
        r == is_control_spec(c),
{
    let u = c as u32;
    u < 0x20 || (0x7f <= u && u <= 0x9f)
}

/// The decimal digit `d`.
pub open spec fn digit_spec(d: nat) -> char {
    seq!['0', '1', '2', '3', '4', '5', '6', '7', '8', '9'][d as int]
}

/// The decimal representation of `n`.
pub open spec fn decimal_spec(n: nat) -> Seq<char>
    decreases n,
{
    if n < 10 {
        seq![digit_spec(n)]
    } else {
        decimal_spec(n / 10).push(digit_spec(n % 10))
    }
}

fn digit(d: u64) -> (c: char)
    requires
        d < 10,
    ensures
        c == digit_spec(d as nat),
{
    let digits = vec!['0', '1', '2', '3', '4', '5', '6', '7', '8', '9'];
    digits[d as usize]
}

/// The decimal representation of `n`.
pub fn decimal(n: u64) -> (r: Vec<char>)
    ensures
        r@ == decimal_spec(n as nat),
    decreases n,
{
    if n < 10 {
        let r = vec![digit(n)];
        assert(r@ =~= decimal_spec(n as nat));
        r
    } else {
        let mut r = decimal(n / 10);
        r.push(digit(n % 10));
        r
    }
}

/// The cursor after pressing `key` at `p` in a document with rows `rows`,
/// with `page` rows to a page. Vertical moves stop at the row one past the
/// last; horizontal moves wrap between the end of a row and the start of
/// the next; the column is then clamped to the length of the new row.
pub open spec fn move_spec(rows: Seq<Seq<char>>, p: Position, key: Key, page: usize) -> Position {
    let height = rows.len() as int;
    let x = p.x as int;
    let y = p.y as int;
    let width = row_len_spec(rows, y);
    let (x1, y1) = match key {
        Key::Up => (x, if y > 0 { y - 1 } else { 0 }),
        Key::Down => (x, if y < height { y + 1 } else { y }),
        Key::Left => if x > 0 {
            (x - 1, y)
        } else if y > 0 {
            (row_len_spec(rows, y - 1), y - 1)
        } else {
            (x, y)
        },
        Key::Right => if x < width {
            (x + 1, y)
        } else if y < height {
            (0, y + 1)
        } else {
            (x, y)
        },
        Key::PageUp => (x, if y > page { y - page } else { 0 }),
        Key::PageDown => (x, if y + page < height { y + page } else { height }),
        Key::Home => (0, y),
        Key::End => (width, y),
        _ => (x, y),
    };
    let w1 = row_len_spec(rows, y1);
    Position { x: (if x1 > w1 { w1 } else { x1 }) as usize, y: y1 as usize }
}

/// The offset along one axis that keeps coordinate `c` inside a window of
/// `extent` cells starting at `off`, moving the window as little as possible.
pub open spec fn scroll_axis(c: usize, off: usize, extent: usize) -> usize {
    if c < off {
        c
    } else if c >= off.saturating_add(extent) {
        c.saturating_sub(extent).saturating_add(1)
    } else {
        off
    }
}

/// The viewport offset that keeps `cursor` visible in a window of `size`.
pub open spec fn scroll_spec(cursor: Position, offset: Position, size: Size) -> Position {
    Position { x: scroll_axis(cursor.x, offset.x, size.width), y: scroll_axis(cursor.y, offset.y, size.height) }
}

/// The label a prompt shows before its input.
pub open spec fn prompt_label(kind: PromptKind) -> Seq<char> {
    match kind {
        PromptKind::SaveAs => "Save as: "@,
        PromptKind::Search => "Search: "@,
    }
}

/// Whether `key` ends a prompt: Enter commits, Esc discards.
pub open spec fn ends_prompt(key: Key) -> bool {
    key == Key::Char('\n') || key == Key::Esc
}

/// A prompt's input after `key`: Backspace removes the last character, Esc
/// clears the input, a printable character is appended.
pub open spec fn prompt_input_spec(input: Seq<char>, key: Key) -> Seq<char> {
    match key {
        Key::Backspace => if input.len() > 0 { input.drop_last() } else { input },
        Key::Esc => Seq::empty(),
        Key::Char(c) => if c != '\n' && !is_control_spec(c) { input.push(c) } else { input },
        _ => input,
    }
}

/// The warning shown when Ctrl-Q is pressed on a document with unsaved
/// changes, `n` more presses before the editor quits.
pub open spec fn quit_warning(n: nat) -> Seq<char> {
    "WARNING!!! File has unsaved changes. Press Ctrl-Q "@ + decimal_spec(n) + " more times to quit."@
}

/// The status shown when a search for `q` finds nothing.
pub open spec fn search_failed(q: Seq<char>) -> Seq<char> {
    "Search for '"@ + q + "' failed"@
}

/// The editor: a document, a cursor in it, the viewport over it, the
/// status message, the quit countdown and the prompt in progress, if any.
pub struct Editor {
    pub shld_quit: bool,
    pub size: Size,
    pub cursor_position: Position,
    pub document: Document,
    pub offset: Position,
    pub status_msg: StatusMsg,
    pub quit_times: u8,
    pub mode: Mode,
}

/// Whether `m` is a prompt of kind `kind` holding `input`.
pub open spec fn in_prompt(m: Mode, kind: PromptKind, input: Seq<char>) -> bool {
    match m {
        Mode::Prompt { kind: k, input: i } => k == kind && i@ == input,
        Mode::Normal => false,
    }
}

/// The rows and the cursor after an editing or moving key pressed outside a
/// prompt: a character is inserted at the cursor, which then moves right;
/// Delete removes at the cursor; Backspace, away from the document's
/// origin, moves left and removes there; arrows, Home, End, PageUp and
/// PageDown move the cursor. Other keys change nothing.
pub open spec fn edit_spec(rows: Seq<Seq<char>>, p: Position, key: Key, page: usize) -> (Seq<Seq<char>>, Position) {
    match key {
        Key::Char(c) => {
            let r = doc_insert_spec(rows, p, c);
            (r, move_spec(r, p, Key::Right, page))
        },
        Key::Delete => (doc_delete_spec(rows, p), p),
        Key::Backspace => if p.x > 0 || p.y > 0 {
            let q = move_spec(rows, p, Key::Left, page);
            (doc_delete_spec(rows, q), q)
        } else {
            (rows, p)
        },
        Key::Up | Key::Down | Key::Left | Key::Right | Key::Home | Key::End | Key::PageUp
        | Key::PageDown => (rows, move_spec(rows, p, key, page)),
        _ => (rows, p),
    }
}

/// Whether the key of `edit_spec` marks the document dirty: an insertion
/// within the document or one row past it, a deletion on one of its rows.
pub open spec fn edit_marks_dirty(rows: Seq<Seq<char>>, p: Position, key: Key, page: usize) -> bool {
    match key {
        Key::Char(_) => (p.y as int) <= rows.len(),
        Key::Delete => (p.y as int) < rows.len(),
        Key::Backspace => (p.x > 0 || p.y > 0) && (move_spec(rows, p, Key::Left, page).y as int) < rows.len(),
        _ => false,
    }
}

/// What pressing `key` outside a prompt does to editor `e`, giving `f` and
/// action `a` at time `now`.
pub open spec fn normal_post(e: Editor, f: Editor, key: Key, now: u64, a: Action) -> bool {
    &&& f.size == e.size
    &&& if key == Key::Ctrl('q') {
        &&& a == Action::Nothing
        &&& f.document == e.document
        &&& f.cursor_position == e.cursor_position
        &&& f.mode == e.mode
        &&& if e.document.dirty_flag() && e.quit_times > 1 {
            &&& f.shld_quit == e.shld_quit
            &&& f.quit_times == e.quit_times - 1
            &&& f.status_msg.text@ == quit_warning((e.quit_times - 1) as nat)
            &&& f.status_msg.time == now
            &&& f.offset == scroll_spec(e.cursor_position, e.offset, e.size)
        } else {
            &&& f.shld_quit
            &&& f.quit_times == e.quit_times
            &&& f.status_msg == e.status_msg
            &&& f.offset == scroll_spec(e.cursor_position, e.offset, e.size)
        }
    } else {
        &&& f.shld_quit == e.shld_quit
        &&& f.quit_times == e.quit_times
        &&& f.offset == scroll_spec(f.cursor_position, e.offset, e.size)
        &&& if key == Key::Ctrl('s') && e.document.name().is_none() {
            &&& a == Action::Nothing
            &&& f.document == e.document
            &&& f.cursor_position == e.cursor_position
            &&& in_prompt(f.mode, PromptKind::SaveAs, Seq::empty())
            &&& f.status_msg.text@ == prompt_label(PromptKind::SaveAs)
            &&& f.status_msg.time == now
        } else if key == Key::Ctrl('s') {
            &&& a == Action::Save
            &&& f.document == e.document
            &&& f.cursor_position == e.cursor_position
            &&& f.mode == e.mode
            &&& f.status_msg == e.status_msg
        } else if key == Key::Ctrl('f') {
            &&& a == Action::Nothing
            &&& f.document == e.document
            &&& f.cursor_position == e.cursor_position
            &&& in_prompt(f.mode, PromptKind::Search, Seq::empty())
            &&& f.status_msg.text@ == prompt_label(PromptKind::Search)
            &&& f.status_msg.time == now
        } else {
            let (rows, p) = edit_spec(e.document@, e.cursor_position, key, e.size.height);
            &&& a == Action::Nothing
            &&& f.document@ == rows
            &&& f.cursor_position == p
            &&& f.document.name() == e.document.name()
            &&& f.document.dirty_flag() == (e.document.dirty_flag() || edit_marks_dirty(
                e.document@,
                e.cursor_position,
                key,
                e.size.height,
            ))
            &&& f.mode == e.mode
            &&& f.status_msg == e.status_msg
        }
    }
}

/// What pressing `key` in a prompt of kind `kind` holding `input` does to
/// editor `e`, giving `f` and action `a` at time `now`. While the prompt
/// stays open its status shows the label and the input, and a search
/// prompt moves the cursor to the first match of the input so far. Enter
/// or Esc closes it: an empty result aborts a save; a file name is set and
/// the save requested; a search query moves the cursor to its first match
/// or reports the failure.
pub open spec fn prompt_post(
    e: Editor,
    f: Editor,
    kind: PromptKind,
    input: Seq<char>,
    key: Key,
    now: u64,
    a: Action,
) -> bool {
    let rows = e.document@;
    let q = prompt_input_spec(input, key);
    &&& f.size == e.size
    &&& f.shld_quit == e.shld_quit
    &&& f.quit_times == e.quit_times
    &&& f.document@ == rows
    &&& f.document.dirty_flag() == e.document.dirty_flag()
    &&& if !ends_prompt(key) {
        &&& a == Action::Nothing
        &&& in_prompt(f.mode, kind, q)
        &&& f.status_msg.text@ == prompt_label(kind) + q
        &&& f.status_msg.time == now
        &&& f.document.name() == e.document.name()
        &&& if kind == PromptKind::Search {
            ||| is_first_doc_match(rows, q, Some(f.cursor_position)) && f.offset == scroll_spec(
                f.cursor_position,
                e.offset,
                e.size,
            )
            ||| is_first_doc_match(rows, q, None) && f.cursor_position == e.cursor_position
                && f.offset == e.offset
        } else {
            f.cursor_position == e.cursor_position && f.offset == e.offset
        }
    } else {
        &&& f.mode == Mode::Normal
        &&& f.status_msg.time == now
        &&& f.offset == scroll_spec(f.cursor_position, e.offset, e.size)
        &&& if kind == PromptKind::SaveAs {
            &&& f.cursor_position == e.cursor_position
            &&& if q.len() == 0 {
                &&& a == Action::Nothing
                &&& f.document.name() == e.document.name()
                &&& f.status_msg.text@ == "Save aborted."@
            } else {
                &&& a == Action::Save
                &&& f.document.name() is Some
                &&& f.document.name()->0@ == q
                &&& f.status_msg.text@ == Seq::<char>::empty()
            }
        } else {
            &&& a == Action::Nothing
            &&& f.document.name() == e.document.name()
            &&& if q.len() == 0 {
                f.cursor_position == e.cursor_position && f.status_msg.text@ == Seq::<char>::empty()
            } else {
                ||| is_first_doc_match(rows, q, Some(f.cursor_position))
                    && f.status_msg.text@ == Seq::<char>::empty()
                ||| is_first_doc_match(rows, q, None) && f.cursor_position == e.cursor_position
                    && f.status_msg.text@ == search_failed(q)
            }
        }
    }
}

/// What pressing `key` does to editor `e`, giving `f` and action `a` at
/// time `now`.
pub open spec fn key_post(e: Editor, f: Editor, key: Key, now: u64, a: Action) -> bool {
    match e.mode {
        Mode::Normal => normal_post(e, f, key, now, a),
        Mode::Prompt { kind, input } => prompt_post(e, f, kind, input@, key, now, a),
    }
}

impl Editor {
    /// An editor over `opened`, the document read from file `file`, at time
    /// `now`. A file that could not be read leaves an empty document and an
    /// error message; otherwise the message is the help line.
    pub fn new(file: Option<String>, opened: Option<Document>, size: Size, now: u64) -> (r: Editor)
        ensures
            r.size == size,
            r.cursor_position == (Position { x: 0, y: 0 }),
            r.offset == (Position { x: 0, y: 0 }),
            !r.shld_quit,
            r.quit_times == QUIT_TIMES,
            r.mode == Mode::Normal,
            r.status_msg.time == now,
            opened is Some ==> r.document == opened->0 && r.status_msg.text@ == "HELP: Ctrl-Q = quit"@,
            opened is None && file is None ==> r.document@ == Seq::<Seq<char>>::empty()
                && r.document.name() is None && !r.document.dirty_flag()
                && r.status_msg.text@ == "HELP: Ctrl-Q = quit"@,
            opened is None && file is Some ==> r.document@ == Seq::<Seq<char>>::empty()
                && r.document.name() is None && !r.document.dirty_flag()
                && r.status_msg.text@ == "ERR: Could not open file: "@ + file->0@,
    {
        let (document, text) = match opened {
            Some(d) => (d, String::from_str("HELP: Ctrl-Q = quit")),
            None => match file {
                Some(path) => {
                    let mut t = String::from_str("ERR: Could not open file: ");
                    t.append(path.as_str());
                    (Document::default(), t)
                },
                None => (Document::default(), String::from_str("HELP: Ctrl-Q = quit")),
            },
        };
        Editor {
            shld_quit: false,
            size,
            cursor_position: Position { x: 0, y: 0 },
            document,
            offset: Position { x: 0, y: 0 },
            status_msg: StatusMsg::from(text, now),
            quit_times: QUIT_TIMES,
            mode: Mode::Normal,
        }
    }

    /// Moves the cursor as `key` says; see `move_spec`.
    pub fn move_cursor(&mut self, key: Key)
        ensures
            final(self).cursor_position == move_spec(
                old(self).document@,
                old(self).cursor_position,
                key,
                old(self).size.height,
            ),
            final(self).document == old(self).document,
            final(self).offset == old(self).offset,
            final(self).size == old(self).size,
            final(self).status_msg == old(self).status_msg,
            final(self).mode == old(self).mode,
            final(self).shld_quit == old(self).shld_quit,
            final(self).quit_times == old(self).quit_times,
    {
        let page = self.size.height;
        let Position { mut x, mut y } = self.cursor_position;
        let height = self.document.len();
        let width = self.document.row_len(y);
        match key {
            Key::Up => {
                y = y.saturating_sub(1);
            },
            Key::Down => {
                if y < height {
                    y = y + 1;
                }
            },
            Key::Left => {
                if x > 0 {
                    x = x - 1;
                } else if y > 0 {
                    y = y - 1;
                    x = self.document.row_len(y);
                }
            },
            Key::Right => {
                if x < width {
                    x = x + 1;
                } else if y < height {
                    y = y + 1;
                    x = 0;
                }
            },
            Key::PageUp => {
                y = if y > page { y - page } else { 0 };
            },
            Key::PageDown => {
                y = if page < height && y < height - page { y + page } else { height };
            },
            Key::Home => {
                x = 0;
            },
            Key::End => {
                x = width;
            },
            _ => {},
        }
        let new_width = self.document.row_len(y);
        if x > new_width {
            x = new_width;
        }
        self.cursor_position = Position { x, y };
    }

    /// Moves the viewport so that the cursor is inside it; see
    /// `scroll_spec`.
    pub fn scroll(&mut self)
        ensures
            final(self).offset == scroll_spec(old(self).cursor_position, old(self).offset, old(self).size),
            final(self).cursor_position == old(self).cursor_position,
            final(self).document == old(self).document,
            final(self).size == old(self).size,
            final(self).status_msg == old(self).status_msg,
            final(self).mode == old(self).mode,
            final(self).shld_quit == old(self).shld_quit,
            final(self).quit_times == old(self).quit_times,
    {
        let Position { x, y } = self.cursor_position;
        let width = self.size.width;
        let height = self.size.height;
        if y < self.offset.y {
            self.offset.y = y;
        } else if y >= self.offset.y.saturating_add(height) {
            self.offset.y = y.saturating_sub(height).saturating_add(1);
        }
        if x < self.offset.x {
            self.offset.x = x;
        } else if x >= self.offset.x.saturating_add(width) {
            self.offset.x = x.saturating_sub(width).saturating_add(1);
        }
    }

    /// Handles a key outside a prompt; see `normal_post`.
    fn normal_key(&mut self, key: Key, now: u64) -> (a: Action)
        ensures
            normal_post(*old(self), *final(self), key, now, a),
    {
        if key == Key::Ctrl('q') {
            if self.document.is_dirty() && self.quit_times > 1 {
                self.quit_times = self.quit_times - 1;
                self.status_msg = StatusMsg::from(quit_warning_text(self.quit_times), now);
                self.scroll();
                return Action::Nothing;
            }
            self.shld_quit = true;
            self.scroll();
            return Action::Nothing;
        }
        let mut action = Action::Nothing;
        if key == Key::Ctrl('s') {
            if self.document.file_name().is_none() {
                self.mode = Mode::Prompt { kind: PromptKind::SaveAs, input: Vec::new() };
                self.status_msg = StatusMsg::from(String::from_str("Save as: "), now);
            } else {
                action = Action::Save;
            }
        } else if key == Key::Ctrl('f') {
            self.mode = Mode::Prompt { kind: PromptKind::Search, input: Vec::new() };
            self.status_msg = StatusMsg::from(String::from_str("Search: "), now);
        } else {
            match key {
                Key::Delete => {
                    self.document.delete(&self.cursor_position);
                },
                Key::Char(c) => {
                    self.document.insert(&self.cursor_position, c);
                    self.move_cursor(Key::Right);
                },
                Key::Backspace => {
                    if self.cursor_position.x > 0 || self.cursor_position.y > 0 {
                        self.move_cursor(Key::Left);
                        self.document.delete(&self.cursor_position);
                    }
                },
                Key::Up | Key::Down | Key::Left | Key::Right | Key::Home | Key::End | Key::PageUp
                | Key::PageDown => {
                    self.move_cursor(key);
                },
                _ => {},
            }
        }
        self.scroll();
        action
    }

    /// Handles a key in a prompt of kind `kind` holding `input`; see
    /// `prompt_post`.
    fn prompt_key(&mut self, kind: PromptKind, input: Vec<char>, key: Key, now: u64) -> (a: Action)
        ensures
            prompt_post(*old(self), *final(self), kind, input@, key, now, a),
    {
        let mut q = input;
        let mut done = false;
        match key {
            Key::Backspace => {
                if q.len() > 0 {
                    q.pop();
                }
            },
            Key::Esc => {
                q = Vec::new();
                done = true;
            },
            Key::Char(c) => {
                if c == '\n' {
                    done = true;
                } else if !is_control(c) {
                    q.push(c);
                }
            },
            _ => {},
        }
        assert(q@ =~= prompt_input_spec(input@, key));
        if !done {
            if kind == PromptKind::Search {
                let query = string_of_chars(q.as_slice());
                match self.document.find(query.as_str()) {
                    Some(p) => {
                        self.cursor_position = p;
                        self.scroll();
                    },
                    None => {},
                }
            }
            self.status_msg = StatusMsg::from(prompt_text(kind, &q), now);
            self.mode = Mode::Prompt { kind, input: q };
            return Action::Nothing;
        }
        self.mode = Mode::Normal;
        self.status_msg = StatusMsg::from(String::new(), now);
        let mut action = Action::Nothing;
        if kind == PromptKind::SaveAs {
            if q.len() == 0 {
                self.status_msg = StatusMsg::from(String::from_str("Save aborted."), now);
            } else {
                self.document.set_file_name(string_of_chars(q.as_slice()));
                action = Action::Save;
            }
        } else if q.len() > 0 {
            let query = string_of_chars(q.as_slice());
            match self.document.find(query.as_str()) {
                Some(p) => {
                    self.cursor_position = p;
                },
                None => {
                    self.status_msg = StatusMsg::from(search_failed_text(&q), now);
                },
            }
        }
        self.scroll();
        action
    }

    /// Handles one key press at time `now`: an edit, a cursor move, a quit
    /// request, or the start of a prompt outside one; input to the prompt
    /// inside one. Returns what the caller has to do next; see `key_post`.
    pub fn process_key(&mut self, key: Key, now: u64) -> (a: Action)
        ensures
            key_post(*old(self), *final(self), key, now, a),
    {
        let prompt = match &self.mode {
            Mode::Normal => None,
            Mode::Prompt { kind, input } => Some((*kind, input.clone())),
        };
        match prompt {
            None => self.normal_key(key, now),
            Some((kind, input)) => self.prompt_key(kind, input, key, now),
        }
    }

    /// Records at time `now` the outcome of writing the document to its
    /// file: on success the document is clean, and either way the status
    /// says what happened.
    pub fn save_finished(&mut self, ok: bool, now: u64)
        ensures
            final(self).document@ == old(self).document@,
            final(self).document.name() == old(self).document.name(),
            final(self).document.dirty_flag() == (old(self).document.dirty_flag() && !ok),
            final(self).status_msg.time == now,
            ok ==> final(self).status_msg.text@ == "File saved successfully."@,
            !ok ==> final(self).status_msg.text@ == "Error writing file!"@,
            final(self).cursor_position == old(self).cursor_position,
            final(self).offset == old(self).offset,
            final(self).size == old(self).size,
            final(self).mode == old(self).mode,
            final(self).shld_quit == old(self).shld_quit,
            final(self).quit_times == old(self).quit_times,
    {
        if ok {
            self.document.mark_saved();
            self.status_msg = StatusMsg::from(String::from_str("File saved successfully."), now);
        } else {
            self.status_msg = StatusMsg::from(String::from_str("Error writing file!"), now);
        }
    }
}

/// The quit warning with `n` presses to go.
fn quit_warning_text(n: u8) -> (r: String)
    ensures
        r@ == quit_warning(n as nat),
{
    let mut v = chars_of("WARNING!!! File has unsaved changes. Press Ctrl-Q ");
    let d = decimal(n as u64);
    v.extend_from_slice(d.as_slice());
    v.extend_from_slice(chars_of(" more times to quit.").as_slice());
    string_of_chars(v.as_slice())
}

/// The status a prompt shows: its label and its input.
fn prompt_text(kind: PromptKind, input: &Vec<char>) -> (r: String)
    ensures
        r@ == prompt_label(kind) + input@,
{
    let mut v = match kind {
        PromptKind::SaveAs => chars_of("Save as: "),
        PromptKind::Search => chars_of("Search: "),
    };
    v.extend_from_slice(input.as_slice());
    string_of_chars(v.as_slice())
}

/// The status reporting that a search for `q` found nothing.
fn search_failed_text(q: &Vec<char>) -> (r: String)
    ensures
        r@ == search_failed(q@),
{
    let mut v = chars_of("Search for '");
    v.extend_from_slice(q.as_slice());
    v.extend_from_slice(chars_of("' failed").as_slice());
    string_of_chars(v.as_slice())
}

} // verus!
