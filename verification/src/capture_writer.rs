//! Triggered capture: when a detection may reach the disk, and what the files
//! are called.
//!
//! Nothing is written during normal operation; only a detection that scores
//! above the trigger causes anything to reach the disk. Two guard rails here
//! keep an unattended overnight session from filling the drive: a cooldown
//! between captures and an hourly cap. Times are nanoseconds on a monotonic
//! clock, so the rate limiting is testable without sleeping.

use std::collections::VecDeque;
use vstd::prelude::*;
use vstd::string::StringExecFns;

use crate::text::{filename_char, sanitize, sanitized};

verus! {

/// One hour, in nanoseconds.
pub const HOUR_NANOS: u64 = 3_600_000_000_000;

/// Why a trigger was declined, for the log and the UI.
#[derive(Debug, Clone, Copy, PartialEq, Eq, Structural)]
pub enum TriggerDecision {
    Accept,
    BelowThreshold,
    CoolingDown,
    HourlyLimit,
}

impl TriggerDecision {
    pub fn accepted(self) -> (r: bool)
        ensures
            r == (self == TriggerDecision::Accept),
    {
        self == TriggerDecision::Accept
    }
}

/// `s` with its leading entries older than `cutoff` removed.
pub open spec fn drop_stale(s: Seq<u64>, cutoff: int) -> Seq<u64>
    decreases s.len(),
{
    if s.len() > 0 && s[0] < cutoff {
        drop_stale(s.drop_first(), cutoff)
    } else {
        s
    }
}

/// The capture times still inside the hourly window at `now`.
pub open spec fn within_hour(recent: Seq<u64>, now: u64) -> Seq<u64> {
    if now >= HOUR_NANOS {
        drop_stale(recent, now - HOUR_NANOS)
    } else {
        recent
    }
}

/// The recent capture times after a detection is weighed at `now`: a weak
/// one is turned away before anything is forgotten; otherwise captures older
/// than an hour are dropped.
pub open spec fn after_evaluate(recent: Seq<u64>, below_threshold: bool, now: u64) -> Seq<u64> {
    if below_threshold {
        recent
    } else {
        within_hour(recent, now)
    }
}

/// Whether a capture at `t` is one of the last hour's at `now`.
pub open spec fn in_last_hour(t: u64, now: u64) -> bool {
    t + HOUR_NANOS >= now
}

/// Whether capture times run oldest first, as a monotonic clock notes them.
pub open spec fn in_time_order(s: Seq<u64>) -> bool {
    forall|i: int, j: int| 0 <= i <= j < s.len() ==> s[i] <= s[j]
}

/// Time elapsed from `then` to `now`, zero if `then` is later.
pub open spec fn elapsed(now: u64, then: u64) -> int {
    if now >= then {
        now - then
    } else {
        0
    }
}

/// The decision for a detection at `now`, given the recent capture times.
pub open spec fn spec_decide(
    recent: Seq<u64>,
    cooldown: u64,
    max_per_hour: u32,
    below_threshold: bool,
    now: u64,
) -> TriggerDecision {
    let kept = within_hour(recent, now);
    if below_threshold {
        TriggerDecision::BelowThreshold
    } else if kept.len() > 0 && elapsed(now, kept.last()) < cooldown {
        TriggerDecision::CoolingDown
    } else if (kept.len() as u32) >= max_per_hour {
        TriggerDecision::HourlyLimit
    } else {
        TriggerDecision::Accept
    }
}

/// Rate limiting for triggered captures.
pub struct TriggerGate {
    cooldown_nanos: u64,
    max_per_hour: u32,
    /// When each recent capture happened, oldest first.
    recent: VecDeque<u64>,
    captures_written: u64,
}

impl TriggerGate {
    pub closed spec fn cooldown(&self) -> u64 {
        self.cooldown_nanos
    }

    pub closed spec fn max_per_hour(&self) -> u32 {
        self.max_per_hour
    }

    /// The recent capture times still held, oldest first.
    pub closed spec fn recent(&self) -> Seq<u64> {
        self.recent@
    }

    pub closed spec fn written(&self) -> u64 {
        self.captures_written
    }

    pub fn new(cooldown_nanos: u64, max_per_hour: u32) -> (g: Self)
        ensures
            g.cooldown() == cooldown_nanos,
            g.max_per_hour() == max_per_hour,
            g.recent() == Seq::<u64>::empty(),
            g.written() == 0,
    {
        TriggerGate { cooldown_nanos, max_per_hour, recent: VecDeque::new(), captures_written: 0 }
    }

    pub fn captures_written(&self) -> (n: u64)
        ensures
            n == self.written(),
    {
        self.captures_written
    }

    /// Would a detection be captured right now?
    ///
    /// `below_threshold` says whether its score fell short of the trigger. A
    /// detection that clears it is refused while the last capture is within
    /// the cooldown, or while the hour already holds the maximum number of
    /// captures. Captures older than an hour are forgotten on the way.
    pub fn evaluate(&mut self, below_threshold: bool, now: u64) -> (d: TriggerDecision)
        ensures
            d == spec_decide(old(self).recent(), old(self).cooldown(), old(self).max_per_hour(), below_threshold, now),
            final(self).cooldown() == old(self).cooldown(),
            final(self).max_per_hour() == old(self).max_per_hour(),
            final(self).written() == old(self).written(),
            final(self).recent() == after_evaluate(old(self).recent(), below_threshold, now),
    {
        if below_threshold {
            return TriggerDecision::BelowThreshold;
        }
        if now >= HOUR_NANOS {
            let cutoff = now - HOUR_NANOS;
            loop
                invariant
                    drop_stale(self.recent@, cutoff as int) == drop_stale(old(self).recent@, cutoff as int),
                    self.cooldown_nanos == old(self).cooldown_nanos,
                    self.max_per_hour == old(self).max_per_hour,
                    self.captures_written == old(self).captures_written,
                ensures
                    self.recent@ == drop_stale(old(self).recent@, cutoff as int),
                    self.cooldown_nanos == old(self).cooldown_nanos,
                    self.max_per_hour == old(self).max_per_hour,
                    self.captures_written == old(self).captures_written,
                decreases self.recent@.len(),
            {
                if self.recent.len() == 0 {
                    break;
                }
                if self.recent[0] >= cutoff {
                    break;
                }
                let ghost before = self.recent@;
                let _ = self.recent.pop_front();
                assert(self.recent@ =~= before.drop_first());
            }
        }
        let n = self.recent.len();
        if n > 0 {
            let last = self.recent[n - 1];
            let since = if now >= last {
                now - last
            } else {
                0
            };
            if since < self.cooldown_nanos {
                return TriggerDecision::CoolingDown;
            }
        }
        if (n as u32) >= self.max_per_hour {
            return TriggerDecision::HourlyLimit;
        }
        TriggerDecision::Accept
    }

    /// Record that a capture was taken at `now`, for rate-limiting purposes.
    pub fn note_capture(&mut self, now: u64)
        requires
            old(self).written() < u64::MAX,
        ensures
            final(self).recent() == old(self).recent().push(now),
            final(self).written() == old(self).written() + 1,
            final(self).cooldown() == old(self).cooldown(),
            final(self).max_per_hour() == old(self).max_per_hour(),
    {
        self.recent.push_back(now);
        self.captures_written = self.captures_written + 1;
    }
}

proof fn lemma_drop_stale_keeps_fresh(s: Seq<u64>, cutoff: int)
    requires
        forall|i: int| 0 <= i < s.len() ==> s[i] >= cutoff,
    ensures
        drop_stale(s, cutoff) == s,
{
}

proof fn lemma_drop_stale_drops_stale(s: Seq<u64>, cutoff: int)
    requires
        forall|i: int| 0 <= i < s.len() ==> s[i] < cutoff,
    ensures
        drop_stale(s, cutoff).len() == 0,
    decreases s.len(),
{
    if s.len() > 0 {
        lemma_drop_stale_drops_stale(s.drop_first(), cutoff);
    }
}

proof fn lemma_drop_stale_keeps_fresh_last(s: Seq<u64>, t: u64, cutoff: int)
    requires
        t >= cutoff,
    ensures
        drop_stale(s.push(t), cutoff).len() > 0,
        drop_stale(s.push(t), cutoff).last() == t,
    decreases s.len(),
{
    if s.len() > 0 && s[0] < cutoff {
        assert(s.push(t).drop_first() =~= s.drop_first().push(t));
        lemma_drop_stale_keeps_fresh_last(s.drop_first(), t, cutoff);
    }
}

/// Dropping the stale entries leaves a suffix: everything before it was
/// stale, and its first entry, if any, is not.
proof fn lemma_drop_stale_is_a_suffix(s: Seq<u64>, cutoff: int)
    ensures
        drop_stale(s, cutoff).len() <= s.len(),
        drop_stale(s, cutoff) =~= s.subrange(s.len() - drop_stale(s, cutoff).len(), s.len() as int),
        forall|i: int| 0 <= i < s.len() - drop_stale(s, cutoff).len() ==> s[i] < cutoff,
        drop_stale(s, cutoff).len() > 0 ==> drop_stale(s, cutoff)[0] >= cutoff,
    decreases s.len(),
{
    if s.len() > 0 && s[0] < cutoff {
        let t = s.drop_first();
        lemma_drop_stale_is_a_suffix(t, cutoff);
        let d = drop_stale(t, cutoff);
        assert forall|i: int| 0 <= i < s.len() - d.len() implies s[i] < cutoff by {
            if i > 0 {
                assert(s[i] == t[i - 1]);
            }
        }
    }
}

/// Dropping the stale entries a second time drops nothing more.
proof fn lemma_drop_stale_twice(s: Seq<u64>, cutoff: int)
    ensures
        drop_stale(drop_stale(s, cutoff), cutoff) == drop_stale(s, cutoff),
{
    lemma_drop_stale_is_a_suffix(s, cutoff);
}

/// Only the last hour counts: when capture times run oldest first, the times
/// kept at `now` are those within the hour before `now`, oldest first, and no
/// others; the cooldown runs from the newest of them and the cap counts them.
pub proof fn law_the_gate_weighs_exactly_the_last_hour(
    recent: Seq<u64>,
    cooldown: u64,
    max_per_hour: u32,
    now: u64,
)
    requires
        in_time_order(recent),
    ensures
        ({
            let kept = within_hour(recent, now);
            let first = recent.len() - kept.len();
            &&& 0 <= first <= recent.len()
            &&& kept == recent.subrange(first, recent.len() as int)
            &&& forall|i: int| 0 <= i < recent.len() ==> (i >= first <==> in_last_hour(#[trigger] recent[i], now))
            &&& spec_decide(recent, cooldown, max_per_hour, false, now) == if kept.len() > 0 && elapsed(now, kept.last()) < cooldown {
                TriggerDecision::CoolingDown
            } else if (kept.len() as u32) >= max_per_hour {
                TriggerDecision::HourlyLimit
            } else {
                TriggerDecision::Accept
            }
        }),
{
    if now >= HOUR_NANOS {
        let cutoff = now - HOUR_NANOS;
        lemma_drop_stale_is_a_suffix(recent, cutoff);
        let kept = drop_stale(recent, cutoff);
        let first = recent.len() - kept.len();
        assert forall|i: int| 0 <= i < recent.len() implies (i >= first <==> in_last_hour(#[trigger] recent[i], now)) by {
            if i >= first {
                assert(kept[0] == recent[first]);
                assert(recent[first] <= recent[i]);
            }
        }
    } else {
        assert(recent.subrange(0, recent.len() as int) =~= recent);
    }
}

/// Weighing a detection records nothing: asking again with the same score at
/// the same moment gets the same answer, and forgets nothing more.
pub proof fn law_asking_twice_gets_the_same_answer(
    recent: Seq<u64>,
    cooldown: u64,
    max_per_hour: u32,
    below_threshold: bool,
    now: u64,
)
    ensures
        spec_decide(after_evaluate(recent, below_threshold, now), cooldown, max_per_hour, below_threshold, now)
            == spec_decide(recent, cooldown, max_per_hour, below_threshold, now),
        after_evaluate(after_evaluate(recent, below_threshold, now), below_threshold, now)
            == after_evaluate(recent, below_threshold, now),
{
    if now >= HOUR_NANOS {
        lemma_drop_stale_twice(recent, now - HOUR_NANOS);
    }
}

/// Captures stay in time order: weighing a detection keeps the order, and so
/// does noting a capture no earlier than the newest one held.
pub proof fn law_captures_stay_in_time_order(recent: Seq<u64>, below_threshold: bool, now: u64, t: u64)
    requires
        in_time_order(recent),
    ensures
        in_time_order(after_evaluate(recent, below_threshold, now)),
        (recent.len() == 0 || recent.last() <= t) ==> in_time_order(recent.push(t)),
{
    if !below_threshold && now >= HOUR_NANOS {
        lemma_drop_stale_is_a_suffix(recent, now - HOUR_NANOS);
    }
    if recent.len() == 0 || recent.last() <= t {
        assert forall|i: int, j: int| 0 <= i <= j < recent.push(t).len() implies recent.push(t)[i] <= recent.push(t)[j] by {
            if j == recent.len() && i < j {
                assert(recent[i] <= recent[recent.len() - 1]);
            }
        }
    }
}

/// A detection whose score falls short of the trigger never reaches the disk,
/// whatever captures came before it.
pub proof fn law_weak_detections_are_refused(recent: Seq<u64>, cooldown: u64, max_per_hour: u32, now: u64)
    ensures
        spec_decide(recent, cooldown, max_per_hour, true, now) == TriggerDecision::BelowThreshold,
{
}

/// The cooldown blocks a burst: once a capture has been noted at `t`, a
/// detection before the cooldown has run out is refused, however strong.
pub proof fn law_cooldown_blocks_a_burst(
    recent: Seq<u64>,
    t: u64,
    cooldown: u64,
    max_per_hour: u32,
    now: u64,
)
    requires
        t <= now,
        now - t < cooldown,
        now - t <= HOUR_NANOS,
    ensures
        spec_decide(recent.push(t), cooldown, max_per_hour, false, now)
            == TriggerDecision::CoolingDown,
{
    if now >= HOUR_NANOS {
        lemma_drop_stale_keeps_fresh_last(recent, t, now - HOUR_NANOS);
    }
}

/// The hourly cap holds: when the hour already holds `max_per_hour` captures,
/// nothing more is accepted.
pub proof fn law_hourly_cap_holds(recent: Seq<u64>, cooldown: u64, max_per_hour: u32, now: u64)
    requires
        recent.len() >= max_per_hour,
        recent.len() <= u32::MAX,
        forall|i: int| 0 <= i < recent.len() ==> recent[i] + HOUR_NANOS >= now,
    ensures
        spec_decide(recent, cooldown, max_per_hour, false, now) != TriggerDecision::Accept,
{
    if now >= HOUR_NANOS {
        lemma_drop_stale_keeps_fresh(recent, now - HOUR_NANOS);
    }
}

/// The cap rolls off: captures more than an hour old no longer count, so once
/// every recent capture is that old, a strong detection is accepted again.
pub proof fn law_hourly_cap_rolls_off(recent: Seq<u64>, cooldown: u64, max_per_hour: u32, now: u64)
    requires
        max_per_hour > 0,
        now >= HOUR_NANOS,
        forall|i: int| 0 <= i < recent.len() ==> recent[i] + HOUR_NANOS < now,
    ensures
        spec_decide(recent, cooldown, max_per_hour, false, now) == TriggerDecision::Accept,
{
    lemma_drop_stale_drops_stale(recent, now - HOUR_NANOS);
}

/// A budget given in mebibytes, in bytes, saturating at the largest value.
pub fn budget_bytes(megabytes: u64) -> (bytes: u64)
    ensures
        bytes == (if megabytes * 1_048_576 <= u64::MAX {
            megabytes * 1_048_576
        } else {
            u64::MAX as int
        }),
{
    if megabytes <= u64::MAX / 1_048_576 {
        megabytes * 1_048_576
    } else {
        u64::MAX
    }
}

/// The file stem of a detection capture: the timestamp and the star system,
/// each made safe for a filename.
pub open spec fn spec_capture_stem(timestamp: Seq<char>, system: Seq<char>) -> Seq<char> {
    sanitized(timestamp) + "_"@ + sanitized(system)
}

/// The file stem for a detection capture. A capture made where the journal
/// has named no system is filed under `unknown`.
pub fn capture_stem(timestamp: &str, system: Option<&str>) -> (stem: String)
    ensures
        stem@ == spec_capture_stem(
            timestamp@,
            match system {
                Some(s) => s@,
                None => "unknown"@,
            },
        ),
{
    let place = match system {
        Some(s) => s,
        None => "unknown",
    };
    let mut stem = sanitize(timestamp);
    stem.append("_");
    let safe = sanitize(place);
    stem.append(safe.as_str());
    stem
}

/// The file stem for a span kept by a primary detector or by hand: the
/// capture time, the reason, and the star system.
pub fn span_stem(captured_utc: &str, reason: &str, system: Option<&str>) -> (stem: String)
    ensures
        stem@ == spec_capture_stem(
            captured_utc@,
            reason@ + "_"@ + match system {
                Some(s) => s@,
                None => "unknown"@,
            },
        ),
{
    let place = match system {
        Some(s) => s,
        None => "unknown",
    };
    let mut stem = sanitize(captured_utc);
    stem.append("_");
    let r = sanitize(reason);
    stem.append(r.as_str());
    stem.append("_");
    let p = sanitize(place);
    stem.append(p.as_str());
    proof {
        let f = |c: char| filename_char(c);
        let rest = reason@ + "_"@ + match system {
            Some(s) => s@,
            None => "unknown"@,
        };
        assert(rest.map_values(f) =~= reason@.map_values(f) + "_"@.map_values(f) + place@.map_values(f));
        reveal_strlit("_");
        assert("_"@.map_values(f) =~= "_"@);
    }
    stem
}

} // verus!
