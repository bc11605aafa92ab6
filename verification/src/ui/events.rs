//! The detection list: the short texts a row is made of.

use vstd::prelude::*;

use crate::capture_writer::TriggerDecision;
use crate::text::{chars_of, string_of};

verus! {

pub open spec fn spec_decision_label(decision: TriggerDecision) -> &'static str {
    match decision {
        TriggerDecision::Accept => "",
        TriggerDecision::BelowThreshold => "below threshold",
        TriggerDecision::CoolingDown => "cooling down",
        TriggerDecision::HourlyLimit => "hourly limit",
    }
}

/// Short reason a detection was not written to disk; nothing for one that
/// was.
pub fn decision_label(decision: TriggerDecision) -> (s: &'static str)
    ensures
        s == spec_decision_label(decision),
{
    match decision {
        TriggerDecision::Accept => "",
        TriggerDecision::BelowThreshold => "below threshold",
        TriggerDecision::CoolingDown => "cooling down",
        TriggerDecision::HourlyLimit => "hourly limit",
    }
}

/// The position of the first `c` in `s` at or after `from`, or the length of
/// `s` when there is none.
pub open spec fn find_char(s: Seq<char>, c: char, from: int) -> int
    decreases s.len() - from,
{
    if from >= s.len() {
        s.len() as int
    } else if s[from] == c {
        from
    } else {
        find_char(s, c, from + 1)
    }
}

/// How many characters of the clock a list row keeps.
pub const CLOCK_CHARS: usize = 8;

/// The wall-clock part of a timestamp: the first eight characters of what
/// lies between its first and second `T`, or the whole text when it has no
/// `T`.
pub open spec fn spec_short_time(s: Seq<char>) -> Seq<char> {
    let t = find_char(s, 'T', 0);
    if t >= s.len() {
        s
    } else {
        let end = find_char(s, 'T', t + 1);
        let piece = s.subrange(t + 1, end);
        if piece.len() > CLOCK_CHARS {
            piece.take(CLOCK_CHARS as int)
        } else {
            piece
        }
    }
}

fn find(v: &Vec<char>, c: char, from: usize) -> (k: usize)
    requires
        from <= v@.len(),
    ensures
        k == find_char(v@, c, from as int),
        from <= k <= v@.len(),
{
    let mut k: usize = from;
    while k < v.len() && v[k] != c
        invariant
            from <= k <= v@.len(),
            find_char(v@, c, k as int) == find_char(v@, c, from as int),
        decreases v.len() - k,
    {
        k = k + 1;
    }
    k
}

/// Trim a timestamp to the wall-clock part, which is all a list row needs.
/// A timestamp in an unexpected shape is passed through, not mangled.
pub fn short_time(timestamp: &str) -> (s: String)
    ensures
        s@ == spec_short_time(timestamp@),
{
    let chars = chars_of(timestamp);
    let t = find(&chars, 'T', 0);
    if t >= chars.len() {
        return string_of(&chars);
    }
    let end = find(&chars, 'T', t + 1);
    let stop = if end - (t + 1) > CLOCK_CHARS {
        t + 1 + CLOCK_CHARS
    } else {
        end
    };
    let mut piece: Vec<char> = Vec::new();
    let mut i: usize = t + 1;
    while i < stop
        invariant
            t + 1 <= i <= stop <= end <= chars@.len(),
            piece@ == chars@.subrange(t + 1, i as int),
        decreases stop - i,
    {
        piece.push(chars[i]);
        assert(chars@.subrange(t + 1, i + 1) =~= chars@.subrange(t + 1, i as int).push(
            chars@[i as int],
        ));
        i = i + 1;
    }
    assert(piece@ =~= spec_short_time(timestamp@));
    string_of(&piece)
}

} // verus!
