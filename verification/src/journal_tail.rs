//! Tailing the newest journal file: which bytes a poll may consume, and where
//! each complete line lies.
//!
//! The game appends to its journal while we read it, so a poll consumes only
//! up to the last complete line; the rest waits for the next poll. The game
//! rewriting or truncating the file resets the cursor to the start rather
//! than reading from a stale offset into the middle of a line, and a new
//! journal file is followed from its beginning.

use vstd::prelude::*;

use crate::journal::{not_after, UtcInstant};
use crate::text::{chars_of, str_eq};

verus! {

/// The byte that ends a journal line.
pub const NEWLINE: u8 = 10;

/// A carriage return, trimmed from line ends with the newline.
pub const CARRIAGE_RETURN: u8 = 13;

/// Where one complete line lies in the journal file: its first byte, and the
/// end of its text with the line ending removed.
#[derive(Debug, Clone, Copy, PartialEq, Eq, Structural)]
pub struct LineSpan {
    pub start: u64,
    pub end: u64,
}

/// The position of the last newline in `s[from..to]`, if there is one.
pub open spec fn last_newline(s: Seq<u8>, from: int, to: int) -> Option<int>
    decreases to - from,
{
    if to <= from {
        None
    } else if s[to - 1] == NEWLINE {
        Some(to - 1)
    } else {
        last_newline(s, from, to - 1)
    }
}

/// The position of the first newline in `s[from..to]`, or `to` when there is
/// none.
pub open spec fn next_newline(s: Seq<u8>, from: int, to: int) -> int
    decreases to - from,
{
    if from >= to {
        to
    } else if s[from] == NEWLINE {
        from
    } else {
        next_newline(s, from + 1, to)
    }
}

/// The end of `s[from..end]` with any trailing carriage returns and newlines
/// removed.
pub open spec fn content_end(s: Seq<u8>, from: int, end: int) -> int
    decreases end - from,
{
    if end > from && (s[end - 1] == NEWLINE || s[end - 1] == CARRIAGE_RETURN) {
        content_end(s, from, end - 1)
    } else {
        end
    }
}

/// The lines of `s[from..to]`, each ending just after its newline, as the
/// start and trimmed end of each.
pub open spec fn split_lines(s: Seq<u8>, from: int, to: int) -> Seq<(int, int)>
    decreases to - from,
{
    if from >= to {
        Seq::empty()
    } else {
        let nl = next_newline(s, from, to);
        let stop = if nl < to {
            nl + 1
        } else {
            to
        };
        if stop <= from {
            Seq::empty()
        } else {
            seq![(from, content_end(s, from, stop))] + split_lines(s, stop, to)
        }
    }
}

/// Where reading resumes in a file of `len` bytes when the cursor stood at
/// `offset`: the start again if the file has shrunk beneath it.
pub open spec fn resume_at(len: int, offset: int) -> int {
    if len < offset {
        0
    } else {
        offset
    }
}

/// The cursor after a poll of `s`: just past the last complete line, or
/// where reading resumed when there is none.
pub open spec fn consumed_to(s: Seq<u8>, offset: int) -> int {
    let base = resume_at(s.len() as int, offset);
    match last_newline(s, base, s.len() as int) {
        Some(j) => j + 1,
        None => base,
    }
}

/// The complete lines a poll of `s` delivers.
pub open spec fn lines_taken(s: Seq<u8>, offset: int) -> Seq<(int, int)> {
    let base = resume_at(s.len() as int, offset);
    split_lines(s, base, consumed_to(s, offset))
}

pub open spec fn span_view(l: LineSpan) -> (int, int) {
    (l.start as int, l.end as int)
}

/// Which journal file is being followed, and how far into it has been read.
pub struct JournalCursor {
    current: Option<String>,
    offset: u64,
}

impl JournalCursor {
    pub closed spec fn file(&self) -> Option<Seq<char>> {
        match self.current {
            Some(f) => Some(f@),
            None => None,
        }
    }

    /// Bytes of the current file already consumed.
    pub closed spec fn offset(&self) -> u64 {
        self.offset
    }

    pub fn new() -> (c: Self)
        ensures
            c.file() is None,
            c.offset() == 0,
    {
        JournalCursor { current: None, offset: 0 }
    }

    /// The file being followed.
    pub fn current_file(&self) -> (f: Option<&str>)
        ensures
            f is Some <==> self.file() is Some,
            f matches Some(name) ==> self.file() == Some(name@),
    {
        match &self.current {
            Some(name) => Some(name.as_str()),
            None => None,
        }
    }

    /// Bytes of the current file already consumed.
    pub fn consumed(&self) -> (n: u64)
        ensures
            n == self.offset(),
    {
        self.offset
    }

    /// Follow `newest`, the newest journal file. A different file is read
    /// from its beginning. Returns whether the file changed.
    pub fn follow(&mut self, newest: &str) -> (switched: bool)
        ensures
            switched == (old(self).file() != Some(newest@)),
            final(self).file() == Some(newest@),
            final(self).offset() == if switched {
                0
            } else {
                old(self).offset()
            },
    {
        let same = match &self.current {
            Some(name) => str_eq(name.as_str(), newest),
            None => false,
        };
        if !same {
            self.current = Some(newest.to_string());
            self.offset = 0;
        }
        !same
    }

    /// Consume the complete lines of `text`, the current contents of the
    /// followed file, returning where each lies. A half-written last line is
    /// left for the next poll.
    pub fn take_lines(&mut self, text: &[u8]) -> (lines: Vec<LineSpan>)
        ensures
            lines@.map_values(|l: LineSpan| span_view(l)) == lines_taken(
                text@,
                old(self).offset() as int,
            ),
            final(self).offset() == consumed_to(text@, old(self).offset() as int),
            final(self).file() == old(self).file(),
    {
        let len: usize = text.len();
        let base: usize = if (len as u64) < self.offset {
            0
        } else {
            self.offset as usize
        };
        assert(base == resume_at(text@.len() as int, self.offset as int));
        let ghost s = text@;

        // The last newline after `base`.
        let mut j: usize = len;
        while j > base && text[j - 1] != NEWLINE
            invariant
                base <= j <= len,
                len == s.len(),
                s == text@,
                last_newline(s, base as int, j as int) == last_newline(s, base as int, len as int),
            decreases j,
        {
            j = j - 1;
        }
        if j == base {
            self.offset = base as u64;
            return Vec::new();
        }
        let to: usize = j;
        assert(last_newline(s, base as int, len as int) == Some(to - 1));

        let mut lines: Vec<LineSpan> = Vec::new();
        let mut pos: usize = base;
        while pos < to
            invariant
                base <= pos <= to <= len,
                len == s.len(),
                s == text@,
                lines@.map_values(|l: LineSpan| span_view(l)) + split_lines(s, pos as int, to as int)
                    == split_lines(s, base as int, to as int),
            decreases to - pos,
        {
            let mut nl: usize = pos;
            while nl < to && text[nl] != NEWLINE
                invariant
                    pos <= nl <= to <= len,
                    len == s.len(),
                    s == text@,
                    next_newline(s, nl as int, to as int) == next_newline(s, pos as int, to as int),
                decreases to - nl,
            {
                nl = nl + 1;
            }
            let stop: usize = if nl < to {
                nl + 1
            } else {
                to
            };
            let mut end: usize = stop;
            while end > pos && (text[end - 1] == NEWLINE || text[end - 1] == CARRIAGE_RETURN)
                invariant
                    pos <= end <= stop <= to <= len,
                    len == s.len(),
                    s == text@,
                    content_end(s, pos as int, end as int) == content_end(s, pos as int, stop as int),
                decreases end,
            {
                end = end - 1;
            }
            let ghost before = lines@.map_values(|l: LineSpan| span_view(l));
            let span = LineSpan { start: pos as u64, end: end as u64 };
            lines.push(span);
            proof {
                assert(lines@.map_values(|l: LineSpan| span_view(l)) =~= before.push(
                    (pos as int, end as int),
                ));
                assert(split_lines(s, pos as int, to as int) =~= seq![(pos as int, end as int)]
                    + split_lines(s, stop as int, to as int));
                assert(before.push((pos as int, end as int)) + split_lines(s, stop as int, to as int)
                    =~= before + split_lines(s, pos as int, to as int));
            }
            pos = stop;
        }
        assert(split_lines(s, to as int, to as int) =~= Seq::<(int, int)>::empty());
        assert(lines@.map_values(|l: LineSpan| span_view(l)) =~= split_lines(
            s,
            base as int,
            to as int,
        ));
        self.offset = to as u64;
        lines
    }
}

proof fn lemma_last_newline_found(s: Seq<u8>, from: int, to: int)
    requires
        0 <= from,
        to <= s.len(),
    ensures
        match last_newline(s, from, to) {
            Some(j) => {
                &&& from <= j < to
                &&& s[j] == NEWLINE
                &&& forall|k: int| j < k < to ==> s[k] != NEWLINE
            },
            None => forall|k: int| from <= k < to ==> s[k] != NEWLINE,
        },
    decreases to - from,
{
    if to > from && s[to - 1] != NEWLINE {
        lemma_last_newline_found(s, from, to - 1);
    }
}

proof fn lemma_last_newline_prefix(s: Seq<u8>, more: Seq<u8>, from: int, to: int)
    requires
        0 <= from,
        to <= s.len(),
    ensures
        last_newline(s + more, from, to) == last_newline(s, from, to),
    decreases to - from,
{
    if to > from {
        assert((s + more)[to - 1] == s[to - 1]);
        lemma_last_newline_prefix(s, more, from, to - 1);
    }
}

proof fn lemma_next_newline_prefix(s: Seq<u8>, more: Seq<u8>, from: int, to: int)
    requires
        0 <= from,
        to <= s.len(),
    ensures
        next_newline(s + more, from, to) == next_newline(s, from, to),
    decreases to - from,
{
    if from < to {
        assert((s + more)[from] == s[from]);
        lemma_next_newline_prefix(s, more, from + 1, to);
    }
}

proof fn lemma_content_end_prefix(s: Seq<u8>, more: Seq<u8>, from: int, end: int)
    requires
        0 <= from,
        end <= s.len(),
    ensures
        content_end(s + more, from, end) == content_end(s, from, end),
    decreases end - from,
{
    if end > from {
        assert((s + more)[end - 1] == s[end - 1]);
        lemma_content_end_prefix(s, more, from, end - 1);
    }
}

proof fn lemma_next_newline_range(t: Seq<u8>, a: int, c: int)
    requires
        0 <= a <= c <= t.len(),
    ensures
        a <= next_newline(t, a, c) <= c,
        next_newline(t, a, c) < c ==> t[next_newline(t, a, c)] == NEWLINE,
        forall|k: int| a <= k < next_newline(t, a, c) ==> t[k] != NEWLINE,
    decreases c - a,
{
    if a < c && t[a] != NEWLINE {
        lemma_next_newline_range(t, a + 1, c);
    }
}

proof fn lemma_split_prefix(s: Seq<u8>, more: Seq<u8>, from: int, to: int)
    requires
        0 <= from,
        to <= s.len(),
    ensures
        split_lines(s + more, from, to) == split_lines(s, from, to),
    decreases to - from,
{
    if from < to {
        lemma_next_newline_prefix(s, more, from, to);
        lemma_next_newline_range(s, from, to);
        let nl = next_newline(s, from, to);
        let stop = if nl < to {
            nl + 1
        } else {
            to
        };
        lemma_content_end_prefix(s, more, from, stop);
        lemma_split_prefix(s, more, stop, to);
    }
}

proof fn lemma_next_newline_narrow(t: Seq<u8>, a: int, b: int, c: int)
    requires
        0 <= a <= b <= c <= t.len(),
        next_newline(t, a, c) < b,
    ensures
        next_newline(t, a, b) == next_newline(t, a, c),
    decreases c - a,
{
    lemma_next_newline_range(t, a, c);
    if a < b && t[a] != NEWLINE {
        lemma_next_newline_narrow(t, a + 1, b, c);
    }
}

proof fn lemma_split_concat(t: Seq<u8>, a: int, b: int, c: int)
    requires
        0 <= a <= b <= c <= t.len(),
        b == a || t[b - 1] == NEWLINE,
    ensures
        split_lines(t, a, c) == split_lines(t, a, b) + split_lines(t, b, c),
    decreases b - a,
{
    if a == b {
        assert(split_lines(t, a, b) =~= Seq::<(int, int)>::empty());
        assert(split_lines(t, a, c) =~= split_lines(t, a, b) + split_lines(t, b, c));
    } else {
        lemma_next_newline_range(t, a, c);
        let nl = next_newline(t, a, c);
        assert(nl <= b - 1) by {
            if nl > b - 1 {
                assert(t[b - 1] != NEWLINE);
            }
        }
        lemma_next_newline_narrow(t, a, b, c);
        let stop = nl + 1;
        lemma_split_concat(t, stop, b, c);
        assert(split_lines(t, a, c) =~= seq![(a, content_end(t, a, stop))] + split_lines(t, stop, c));
        assert(split_lines(t, a, b) =~= seq![(a, content_end(t, a, stop))] + split_lines(t, stop, b));
        assert(split_lines(t, a, c) =~= split_lines(t, a, b) + split_lines(t, b, c));
    }
}

proof fn lemma_last_newline_later_start(t: Seq<u8>, a: int, b: int, len: int)
    requires
        a <= b <= len,
        last_newline(t, b, len) is Some,
    ensures
        last_newline(t, a, len) == last_newline(t, b, len),
    decreases len - b,
{
    if t[len - 1] != NEWLINE {
        lemma_last_newline_later_start(t, a, b, len - 1);
    }
}

proof fn lemma_last_newline_quiet_tail(t: Seq<u8>, a: int, b: int, len: int)
    requires
        a <= b <= len,
        last_newline(t, b, len) is None,
    ensures
        last_newline(t, a, len) == last_newline(t, a, b),
    decreases len - b,
{
    if len > b {
        lemma_last_newline_quiet_tail(t, a, b, len - 1);
    }
}

/// A poll never consumes part of a line: reading stops at the start of the
/// file, at where the last poll stopped, or just past a newline, and nothing
/// after it holds a newline — the rest is a line the game has not finished
/// writing.
pub proof fn law_a_poll_stops_at_a_line_boundary(s: Seq<u8>, offset: int)
    requires
        0 <= offset,
    ensures
        ({
            let base = resume_at(s.len() as int, offset);
            let c = consumed_to(s, offset);
            &&& base <= c <= s.len()
            &&& (c == base || s[c - 1] == NEWLINE)
            &&& forall|k: int| c <= k < s.len() ==> s[k] != NEWLINE
        }),
{
    lemma_last_newline_found(s, resume_at(s.len() as int, offset), s.len() as int);
}

/// A file that shrank beneath the cursor is read again from its start.
pub proof fn law_a_truncated_file_is_reread(s: Seq<u8>, offset: int)
    requires
        s.len() < offset,
    ensures
        lines_taken(s, offset) == lines_taken(s, 0),
        consumed_to(s, offset) == consumed_to(s, 0),
{
}

/// Polling a journal as the game appends to it delivers every complete line
/// exactly once: the lines of one poll followed by those of the next, after
/// `more` was appended, are the lines a single later poll would have
/// delivered.
pub proof fn law_appended_lines_are_delivered_once(s: Seq<u8>, more: Seq<u8>, offset: int)
    requires
        0 <= offset <= s.len(),
    ensures
        lines_taken(s, offset) + lines_taken(s + more, consumed_to(s, offset)) == lines_taken(
            s + more,
            offset,
        ),
        consumed_to(s + more, consumed_to(s, offset)) == consumed_to(s + more, offset),
{
    let t = s + more;
    let len1 = s.len() as int;
    let len2 = t.len() as int;
    let base = offset;
    assert(resume_at(len1, offset) == base);
    assert(resume_at(len2, offset) == base);
    let c1 = consumed_to(s, offset);
    lemma_last_newline_found(s, base, len1);
    lemma_last_newline_prefix(s, more, base, len1);
    assert(base <= c1 <= len1);
    assert(resume_at(len2, c1) == c1);
    let c2 = consumed_to(t, c1);
    lemma_last_newline_found(t, c1, len2);
    // Both polls together end where one poll would.
    if last_newline(t, c1, len2) is Some {
        lemma_last_newline_later_start(t, base, c1, len2);
    } else {
        lemma_last_newline_quiet_tail(t, base, c1, len2);
        lemma_last_newline_prefix(s, more, base, c1);
        if c1 > base {
            assert(s[c1 - 1] == NEWLINE);
            assert(last_newline(s, base, c1) == Some(c1 - 1));
        } else {
            assert(last_newline(s, base, base) is None);
        }
    }
    assert(consumed_to(t, offset) == c2);
    assert(c1 == base || t[c1 - 1] == NEWLINE) by {
        if c1 > base {
            assert(t[c1 - 1] == s[c1 - 1]);
        }
    }
    lemma_split_prefix(s, more, base, c1);
    lemma_split_concat(t, base, c1, c2);
}

/// Whether `name` is a journal file's name: `Journal…` ending in `.log`.
pub open spec fn is_journal_name(name: Seq<char>) -> bool {
    "Journal"@.is_prefix_of(name) && ".log"@.is_suffix_of(name)
}

/// Whether a file takes part in choosing the newest journal: it is named
/// like one and its modification time could be read.
pub open spec fn eligible(name: Seq<char>, modified: Option<UtcInstant>) -> bool {
    is_journal_name(name) && modified is Some
}

/// `a` is strictly later than `b`.
pub open spec fn later(a: UtcInstant, b: UtcInstant) -> bool {
    !not_after(a, b)
}

fn is_prefix(p: &Vec<char>, s: &Vec<char>) -> (r: bool)
    ensures
        r == p@.is_prefix_of(s@),
{
    if p.len() > s.len() {
        return false;
    }
    let mut i: usize = 0;
    while i < p.len()
        invariant
            p@.len() <= s@.len(),
            i <= p@.len(),
            forall|k: int| 0 <= k < i ==> p@[k] == s@[k],
        decreases p.len() - i,
    {
        if p[i] != s[i] {
            return false;
        }
        i = i + 1;
    }
    assert(p@ =~= s@.subrange(0, p@.len() as int));
    true
}

fn is_suffix(p: &Vec<char>, s: &Vec<char>) -> (r: bool)
    ensures
        r == p@.is_suffix_of(s@),
{
    if p.len() > s.len() {
        return false;
    }
    let off = s.len() - p.len();
    let mut i: usize = 0;
    while i < p.len()
        invariant
            p@.len() <= s@.len(),
            off == s@.len() - p@.len(),
            s@.len() == s.len(),
            p@.len() == p.len(),
            i <= p@.len(),
            forall|k: int| 0 <= k < i ==> p@[k] == s@[off + k],
        decreases p.len() - i,
    {
        if p[i] != s[off + i] {
            return false;
        }
        i = i + 1;
    }
    assert(p@ =~= s@.subrange(off as int, s@.len() as int));
    true
}

/// Whether `name` is a journal file's name.
pub fn journal_name(name: &str) -> (r: bool)
    ensures
        r == is_journal_name(name@),
{
    let n = chars_of(name);
    let prefix = chars_of("Journal");
    let suffix = chars_of(".log");
    is_prefix(&prefix, &n) && is_suffix(&suffix, &n)
}

/// The newest journal in a directory listing, given each file's name and,
/// when it could be read, its modification time: the first of the journal
/// files whose time no other journal file's time exceeds.
pub fn newest_journal(names: &[String], modified: &[Option<UtcInstant>]) -> (newest: Option<usize>)
    requires
        names@.len() == modified@.len(),
    ensures
        match newest {
            Some(k) => {
                &&& k < names@.len()
                &&& eligible(names@[k as int]@, modified@[k as int])
                &&& forall|j: int|
                    0 <= j < names@.len() && eligible(names@[j]@, modified@[j]) ==> !later(
                        modified@[j]->0,
                        modified@[k as int]->0,
                    )
                &&& forall|j: int|
                    0 <= j < k && eligible(names@[j]@, modified@[j]) ==> later(
                        modified@[k as int]->0,
                        modified@[j]->0,
                    )
            },
            None => forall|j: int| 0 <= j < names@.len() ==> !eligible(names@[j]@, modified@[j]),
        },
{
    let mut best: Option<usize> = None;
    let mut i: usize = 0;
    while i < names.len()
        invariant
            names@.len() == modified@.len(),
            i <= names@.len(),
            match best {
                Some(k) => {
                    &&& k < i
                    &&& eligible(names@[k as int]@, modified@[k as int])
                    &&& forall|j: int|
                        0 <= j < i && eligible(names@[j]@, modified@[j]) ==> !later(
                            modified@[j]->0,
                            modified@[k as int]->0,
                        )
                    &&& forall|j: int|
                        0 <= j < k && eligible(names@[j]@, modified@[j]) ==> later(
                            modified@[k as int]->0,
                            modified@[j]->0,
                        )
                },
                None => forall|j: int| 0 <= j < i ==> !eligible(names@[j]@, modified@[j]),
            },
        decreases names.len() - i,
    {
        if journal_name(names[i].as_str()) {
            if let Some(t) = modified[i] {
                let take = match best {
                    Some(k) => {
                        let b = modified[k].unwrap();
                        t.secs > b.secs || (t.secs == b.secs && t.nanos > b.nanos)
                    },
                    None => true,
                };
                if take {
                    best = Some(i);
                }
            }
        }
        i = i + 1;
    }
    best
}

} // verus!
