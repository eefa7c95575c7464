//! One line of text, addressed by character offsets.
use vstd::prelude::*;

verus! {

/// The sequence `s` with `c` inserted before index `at`, where `at` is
/// clamped to the length of `s`.
pub open spec fn insert_spec(s: Seq<char>, at: int, c: char) -> Seq<char> {
    let i = clamp(at, s.len() as int);
    s.subrange(0, i).push(c) + s.subrange(i, s.len() as int)
}

/// The sequence `s` without the character at `at`, unchanged when `at` is
/// past the end.
pub open spec fn delete_spec(s: Seq<char>, at: int) -> Seq<char> {
    if 0 <= at < s.len() {
        s.subrange(0, at) + s.subrange(at + 1, s.len() as int)
    } else {
        s
    }
}

/// An index clamped to `[0, len]`.
pub open spec fn clamp(i: int, len: int) -> int {
    if i < 0 {
        0
    } else if i < len {
        i
    } else {
        len
    }
}

/// The characters of `s` whose indices fall in `[start, end)`, clamped to
/// the bounds of `s`.
pub open spec fn render_spec(s: Seq<char>, start: int, end: int) -> Seq<char> {
    let e = clamp(end, s.len() as int);
    let b = clamp(start, e);
    s.subrange(b, e)
}

/// Whether `q` occurs in `s` starting at index `i`.
pub open spec fn matches_at(s: Seq<char>, q: Seq<char>, i: int) -> bool {
    &&& 0 <= i
    &&& i + q.len() <= s.len()
    &&& s.subrange(i, i + q.len()) == q
}

/// Whether `q` occurs in `s` at some index at or after `start`.
pub open spec fn occurs_from(s: Seq<char>, q: Seq<char>, start: int) -> bool {
    exists|i: int| start <= i && #[trigger] matches_at(s, q, i)
}

/// `r` is the first index at or after `start` at which `q` occurs in `s`,
/// or `None` when there is none.
pub open spec fn is_first_match(s: Seq<char>, q: Seq<char>, start: int, r: Option<usize>) -> bool {
    match r {
        Some(i) => {
            &&& start <= i
            &&& matches_at(s, q, i as int)
            &&& forall|j: int| start <= j < i ==> !#[trigger] matches_at(s, q, j)
        },
        None => !occurs_from(s, q, start),
    }
}

/// The characters of a string slice, in order.
pub fn chars_of(s: &str) -> (r: Vec<char>)
    ensures
        r@ == s@,
{
    let n = s.unicode_len();
    let mut r: Vec<char> = Vec::new();
    let mut i: usize = 0;
    while i < n
        invariant
            n == s@.len(),
            i <= n,
            r@ == s@.subrange(0, i as int),
        decreases n - i,
    {
        let c = s.get_char(i);
        r.push(c);
        i = i + 1;
        assert(r@ =~= s@.subrange(0, i as int));
    }
    assert(r@ =~= s@);
    r
}

/// Relies on `String::from_iter` over `char`s: the string holds those
/// characters in order.
#[verifier::external_body]
pub(crate) fn string_of_chars(v: &[char]) -> (r: String)
    ensures
        r@ == v@,
{
    String::from_iter(v.iter())
}

/// A line of text.
#[derive(Clone, Debug)]
pub struct Row {
    string: Vec<char>,
}

impl View for Row {
    type V = Seq<char>;

    closed spec fn view(&self) -> Seq<char> {
        self.string@
    }
}

impl Row {
    /// A row holding the characters of `s`.
    pub fn from(s: &str) -> (r: Row)
        ensures
            r@ == s@,
    {
        Row { string: chars_of(s) }
    }

    /// A row holding the characters `chars`.
    pub fn from_chars(chars: Vec<char>) -> (r: Row)
        ensures
            r@ == chars@,
    {
        Row { string: chars }
    }

    /// An empty row.
    pub fn new() -> (r: Row)
        ensures
            r@ == Seq::<char>::empty(),
    {
        Row { string: Vec::new() }
    }

    /// The number of characters in the row.
    pub fn len(&self) -> (r: usize)
        ensures
            r == self@.len(),
    {
        self.string.len()
    }

    /// Whether the row has no characters.
    pub fn is_empty(&self) -> (r: bool)
        ensures
            r == (self@.len() == 0),
    {
        self.string.len() == 0
    }

    /// The characters of the row.
    pub fn chars(&self) -> (r: &Vec<char>)
        ensures
            r@ == self@,
    {
        &self.string
    }

    /// The row's content as a string.
    pub fn as_string(&self) -> (r: String)
        ensures
            r@ == self@,
    {
        string_of_chars(self.string.as_slice())
    }

    /// The characters whose indices fall in `[start, end)`, clamped to the
    /// row.
    pub fn render(&self, start: usize, end: usize) -> (r: String)
        ensures
            r@ == render_spec(self@, start as int, end as int),
    {
        let len = self.string.len();
        let e = if end < len { end } else { len };
        let b = if start < e { start } else { e };
        let mut out: Vec<char> = Vec::new();
        let mut i: usize = b;
        while i < e
            invariant
                b <= i <= e <= len,
                len == self@.len(),
                out@ == self@.subrange(b as int, i as int),
            decreases e - i,
        {
            out.push(self.string[i]);
            i = i + 1;
            assert(out@ =~= self@.subrange(b as int, i as int));
        }
        string_of_chars(out.as_slice())
    }

    /// Inserts `c` before character `at`; an index past the end appends.
    pub fn insert(&mut self, at: usize, c: char)
        ensures
            final(self)@ == insert_spec(old(self)@, at as int, c),
    {
        if at >= self.string.len() {
            self.string.push(c);
            assert(self@ =~= insert_spec(old(self)@, at as int, c));
        } else {
            self.string.insert(at, c);
            assert(self@ =~= insert_spec(old(self)@, at as int, c));
        }
    }

    /// Removes the character at `at`; nothing happens when `at` is past the
    /// end.
    pub fn delete(&mut self, at: usize)
        ensures
            final(self)@ == delete_spec(old(self)@, at as int),
    {
        if at < self.string.len() {
            self.string.remove(at);
            assert(self@ =~= delete_spec(old(self)@, at as int));
        }
    }

    /// Appends the characters of `other` to this row.
    pub fn append(&mut self, other: &Row)
        ensures
            final(self)@ == old(self)@ + other@,
    {
        self.string.extend_from_slice(other.string.as_slice());
    }

    /// Truncates the row to its first `at` characters and returns the rest
    /// as a new row.
    pub fn split(&mut self, at: usize) -> (r: Row)
        ensures
            final(self)@ == old(self)@.subrange(0, clamp(at as int, old(self)@.len() as int)),
            r@ == old(self)@.subrange(clamp(at as int, old(self)@.len() as int), old(self)@.len() as int),
    {
        let len = self.string.len();
        let i = if at < len { at } else { len };
        let tail = self.string.split_off(i);
        Row { string: tail }
    }

    /// The first character index at or after `start` at which `query`
    /// occurs, if any.
    pub fn find(&self, query: &Vec<char>, start: usize) -> (r: Option<usize>)
        ensures
            is_first_match(self@, query@, start as int, r),
    {
        let len = self.string.len();
        let qlen = query.len();
        if qlen > len {
            proof {
                assert forall|i: int| start <= i implies !#[trigger] matches_at(self@, query@, i) by {}
            }
            return None;
        }
        let mut i: usize = start;
        while i <= len - qlen
            invariant
                len == self@.len(),
                qlen == query@.len(),
                qlen <= len,
                start <= i,
                forall|j: int| start <= j < i ==> !#[trigger] matches_at(self@, query@, j),
            decreases len - i,
        {
            let mut k: usize = 0;
            while k < qlen && self.string[i + k] == query[k]
                invariant
                    i + qlen <= len,
                    len == self@.len(),
                    qlen == query@.len(),
                    k <= qlen,
                    forall|m: int| 0 <= m < k ==> self@[i + m] == query@[m],
                decreases qlen - k,
            {
                k = k + 1;
            }
            if k == qlen {
                assert(self@.subrange(i as int, i + qlen) =~= query@);
                return Some(i);
            }
            assert(!matches_at(self@, query@, i as int)) by {
                if matches_at(self@, query@, i as int) {
                    assert(self@.subrange(i as int, i + qlen)[k as int] == query@[k as int]);
                }
            }
            i = i + 1;
        }
        proof {
            assert forall|j: int| start <= j implies !#[trigger] matches_at(self@, query@, j) by {
                if j >= i {
                    assert(j + qlen > len);
                }
            }
        }
        None
    }
}

} // verus!
