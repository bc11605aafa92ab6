//! Elite Dangerous journal tracking: what the game's event lines say about
//! where the commander is, which lines are kept, and which of them lie near
//! an interval of captured audio.
//!
//! The journal is read-only and never a hard dependency; losing it must never
//! stop capture. What it buys is the ability to stamp every detection with a
//! star system and its galactic coordinates.

use std::collections::VecDeque;
use vstd::prelude::*;

use crate::text::str_eq;

verus! {

/// How many source lines are kept for correlation.
pub const MAX_RETAINED_EVENTS: usize = 4096;

/// What the journal tells us about where the commander is.
#[derive(Debug, Clone, PartialEq)]
pub struct GameState {
    pub star_system: Option<String>,
    /// Galactic coordinates in light years, each as the bit pattern of a
    /// 64-bit float.
    pub star_pos: Option<[u64; 3]>,
    pub system_address: Option<u64>,
    pub body: Option<String>,
    /// Current music track. A detection that coincides with a track change is a
    /// prime false-positive suspect.
    pub music_track: Option<String>,
    pub in_supercruise: bool,
    /// False once a `Shutdown` event is seen — audio after that is not the game.
    pub game_running: bool,
    /// Timestamp of the most recent event applied, as written by the game.
    pub last_event_utc: Option<String>,
}

/// Nothing known yet.
pub open spec fn unknown_game_state(s: GameState) -> bool {
    &&& s.star_system is None
    &&& s.star_pos is None
    &&& s.system_address is None
    &&& s.body is None
    &&& s.music_track is None
    &&& !s.in_supercruise
    &&& !s.game_running
    &&& s.last_event_utc is None
}

impl Default for GameState {
    fn default() -> (s: Self)
        ensures
            unknown_game_state(s),
    {
        GameState {
            star_system: None,
            star_pos: None,
            system_address: None,
            body: None,
            music_track: None,
            in_supercruise: false,
            game_running: false,
            last_event_utc: None,
        }
    }
}

impl GameState {
    /// Whether the game is playing a music track right now. Elite writes
    /// `NoTrack` when music is off or silent.
    pub fn music_playing(&self) -> (r: bool)
        ensures
            r == (match self.music_track {
                Some(t) => t@ != "NoTrack"@,
                None => false,
            }),
    {
        match &self.music_track {
            Some(track) => !str_eq(track.as_str(), "NoTrack"),
            None => false,
        }
    }
}

/// The fields of one journal line that the state tracking reads, each as
/// the line's JSON object holds it.
#[derive(Debug, Clone, PartialEq)]
pub struct JournalLine {
    /// `event`, when present as a string. A line without one is not a
    /// journal event.
    pub event: Option<String>,
    /// `timestamp`, when present as a string.
    pub timestamp: Option<String>,
    /// `StarSystem`, when present as a string.
    pub star_system: Option<String>,
    /// `StarPos`, when present as an array: for each element, the bit pattern
    /// of its 64-bit float value when it is a number.
    pub star_pos: Option<Vec<Option<u64>>>,
    /// `SystemAddress`, when present as an unsigned integer.
    pub system_address: Option<u64>,
    /// `Body`, when present as a string.
    pub body: Option<String>,
    /// `MusicTrack`, when present as a string.
    pub music_track: Option<String>,
}

/// One complete source journal line, kept with enough provenance to find it
/// again after a detection.
#[derive(Debug, Clone, PartialEq)]
pub struct JournalEvent {
    pub timestamp_utc: Option<String>,
    pub event: String,
    pub source_file: String,
    pub byte_offset: u64,
    pub raw_json: String,
}

/// The kinds of event that move the game state.
pub enum EventKind {
    Fileheader,
    Arrival,
    SupercruiseEntry,
    SupercruiseExit,
    Music,
    Shutdown,
    Other,
}

pub open spec fn spec_event_kind(name: Seq<char>) -> EventKind {
    if name == "Fileheader"@ {
        EventKind::Fileheader
    } else if name == "FSDJump"@ || name == "CarrierJump"@ || name == "Location"@ {
        EventKind::Arrival
    } else if name == "SupercruiseEntry"@ {
        EventKind::SupercruiseEntry
    } else if name == "SupercruiseExit"@ {
        EventKind::SupercruiseExit
    } else if name == "Music"@ {
        EventKind::Music
    } else if name == "Shutdown"@ {
        EventKind::Shutdown
    } else {
        EventKind::Other
    }
}

fn event_kind(name: &str) -> (k: EventKind)
    ensures
        k == spec_event_kind(name@),
{
    if str_eq(name, "Fileheader") {
        EventKind::Fileheader
    } else if str_eq(name, "FSDJump") || str_eq(name, "CarrierJump") || str_eq(name, "Location") {
        EventKind::Arrival
    } else if str_eq(name, "SupercruiseEntry") {
        EventKind::SupercruiseEntry
    } else if str_eq(name, "SupercruiseExit") {
        EventKind::SupercruiseExit
    } else if str_eq(name, "Music") {
        EventKind::Music
    } else if str_eq(name, "Shutdown") {
        EventKind::Shutdown
    } else {
        EventKind::Other
    }
}

/// Whether a line moves the game state: it names an event, and one the
/// tracker knows.
pub open spec fn changes_state(line: JournalLine) -> bool {
    match line.event {
        Some(name) => !(spec_event_kind(name@) is Other),
        None => false,
    }
}

/// Galactic coordinates from `StarPos`: only an array of exactly three
/// numbers is a position.
pub open spec fn coordinates(star_pos: Option<Vec<Option<u64>>>) -> Option<[u64; 3]> {
    match star_pos {
        Some(v) => if v@.len() == 3 && v@[0] is Some && v@[1] is Some && v@[2] is Some {
            Some([v@[0]->0, v@[1]->0, v@[2]->0])
        } else {
            None
        },
        None => None,
    }
}

fn coordinates_of(star_pos: &Option<Vec<Option<u64>>>) -> (c: Option<[u64; 3]>)
    ensures
        c == coordinates(*star_pos),
{
    match star_pos {
        Some(v) => {
            if v.len() == 3 {
                match (v[0], v[1], v[2]) {
                    (Some(x), Some(y), Some(z)) => Some([x, y, z]),
                    _ => None,
                }
            } else {
                None
            }
        },
        None => None,
    }
}

/// `new` keeps `old`'s value where the line says nothing.
pub open spec fn or_keep<T>(new: Option<T>, old: Option<T>) -> Option<T> {
    match new {
        Some(v) => Some(v),
        None => old,
    }
}

/// The game state after one journal line.
pub open spec fn spec_apply(s: GameState, line: JournalLine) -> GameState {
    let name = match line.event {
        Some(n) => n@,
        None => Seq::empty(),
    };
    let moved = match spec_event_kind(name) {
        EventKind::Fileheader => GameState { game_running: true, ..s },
        EventKind::Arrival => GameState {
            star_system: or_keep(line.star_system, s.star_system),
            star_pos: or_keep(coordinates(line.star_pos), s.star_pos),
            system_address: line.system_address,
            body: line.body,
            game_running: true,
            ..s
        },
        EventKind::SupercruiseEntry => GameState { in_supercruise: true, ..s },
        EventKind::SupercruiseExit => GameState {
            in_supercruise: false,
            body: or_keep(line.body, s.body),
            ..s
        },
        EventKind::Music => GameState { music_track: line.music_track, ..s },
        EventKind::Shutdown => GameState { game_running: false, in_supercruise: false, ..s },
        EventKind::Other => s,
    };
    if changes_state(line) {
        GameState { last_event_utc: line.timestamp, ..moved }
    } else {
        s
    }
}

/// The retained source lines after one more: the newest
/// `MAX_RETAINED_EVENTS`, oldest first.
pub open spec fn retain_newest(events: Seq<JournalEvent>, e: JournalEvent) -> Seq<JournalEvent> {
    let all = events.push(e);
    if all.len() > MAX_RETAINED_EVENTS {
        all.drop_first()
    } else {
        all
    }
}

/// Unknown events change nothing: the journal gains new event types with
/// every game update, and a line the tracker does not understand leaves the
/// game state exactly as it was.
pub proof fn law_unknown_events_change_nothing(s: GameState, line: JournalLine)
    requires
        !changes_state(line),
    ensures
        spec_apply(s, line) == s,
{
}

/// Every line is kept for correlation, newest last, and never more than the
/// retention limit of them: the oldest goes first.
pub proof fn law_retention_keeps_the_newest(events: Seq<JournalEvent>, e: JournalEvent)
    requires
        events.len() <= MAX_RETAINED_EVENTS,
    ensures
        retain_newest(events, e).len() <= MAX_RETAINED_EVENTS,
        retain_newest(events, e).last() == e,
        retain_newest(events, e).len() == if events.len() == MAX_RETAINED_EVENTS {
            events.len()
        } else {
            events.len() + 1
        },
        events.len() < MAX_RETAINED_EVENTS ==> retain_newest(events, e).drop_last() == events,
        events.len() == MAX_RETAINED_EVENTS ==> retain_newest(events, e).drop_last()
            == events.drop_first(),
{
    let all = events.push(e);
    assert(all.drop_last() =~= events);
    if all.len() > MAX_RETAINED_EVENTS {
        assert(all.drop_first().drop_last() =~= events.drop_first());
    }
}

/// A point in time, as whole seconds since the Unix epoch and the nanoseconds
/// past that second (beyond a billion during a leap second).
#[derive(Debug, Clone, Copy, PartialEq, Eq, Structural)]
pub struct UtcInstant {
    pub secs: i64,
    pub nanos: u32,
}

/// Time order: by second, then by the nanoseconds within it.
pub open spec fn not_after(a: UtcInstant, b: UtcInstant) -> bool {
    a.secs < b.secs || (a.secs == b.secs && a.nanos <= b.nanos)
}

/// The instant an RFC 3339 timestamp denotes, as seconds and sub-second
/// nanoseconds, or `None` when the text is not such a timestamp.
pub uninterp spec fn rfc3339_instant(text: Seq<char>) -> Option<(i64, u32)>;

/// `chrono::DateTime::parse_from_rfc3339`, read as a point in UTC.
///
/// Claimed of it: the result is a fixed function of the text, named
/// `rfc3339_instant`, and the nanoseconds are below two billion, as chrono
/// documents for `timestamp_subsec_nanos`. Which texts parse, and to what,
/// is left to chrono.
#[verifier::external_body]
fn parse_rfc3339(text: &str) -> (r: Option<(i64, u32)>)
    ensures
        r == rfc3339_instant(text@),
        r matches Some(p) ==> p.1 < 2_000_000_000,
{
    match chrono::DateTime::parse_from_rfc3339(text) {
        Ok(t) => Some((t.timestamp(), t.timestamp_subsec_nanos())),
        Err(_) => None,
    }
}

/// Whether a parsed timestamp, as seconds and nanoseconds, lies in
/// `[from, to]`. A timestamp that did not parse lies nowhere.
pub open spec fn parsed_within(parsed: Option<(i64, u32)>, from: UtcInstant, to: UtcInstant) -> bool {
    match parsed {
        Some(p) => {
            let at = UtcInstant { secs: p.0, nanos: p.1 };
            not_after(from, at) && not_after(at, to)
        },
        None => false,
    }
}

/// Whether a journal record's timestamp lies in `[from, to]`.
pub open spec fn stamped_within(e: JournalEvent, from: UtcInstant, to: UtcInstant) -> bool {
    match e.timestamp_utc {
        Some(t) => parsed_within(rfc3339_instant(t@), from, to),
        None => false,
    }
}

/// Whether a parsed timestamp lies in `[from, to]`, both ends included,
/// ordered by second and then by the nanoseconds within it.
pub fn instant_within(parsed: Option<(i64, u32)>, from: UtcInstant, to: UtcInstant) -> (within: bool)
    ensures
        within == parsed_within(parsed, from, to),
{
    match parsed {
        Some(p) => {
            let at = UtcInstant { secs: p.0, nanos: p.1 };
            (from.secs < at.secs || (from.secs == at.secs && from.nanos <= at.nanos)) && (at.secs
                < to.secs || (at.secs == to.secs && at.nanos <= to.nanos))
        },
        None => false,
    }
}

fn copy_text(t: &Option<String>) -> (c: Option<String>)
    ensures
        c == *t,
{
    match t {
        Some(s) => Some(s.clone()),
        None => None,
    }
}

fn copy_event(e: &JournalEvent) -> (c: JournalEvent)
    ensures
        c == *e,
{
    JournalEvent {
        timestamp_utc: copy_text(&e.timestamp_utc),
        event: e.event.clone(),
        source_file: e.source_file.clone(),
        byte_offset: e.byte_offset,
        raw_json: e.raw_json.clone(),
    }
}

/// The state the journal builds: the game state and the retained source
/// lines.
pub struct JournalState {
    state: GameState,
    events: VecDeque<JournalEvent>,
}

impl JournalState {
    pub closed spec fn game(&self) -> GameState {
        self.state
    }

    /// The retained source lines, oldest first.
    pub closed spec fn retained(&self) -> Seq<JournalEvent> {
        self.events@
    }

    pub open spec fn wf(&self) -> bool {
        self.retained().len() <= MAX_RETAINED_EVENTS
    }

    pub fn new() -> (j: Self)
        ensures
            j.wf(),
            unknown_game_state(j.game()),
            j.retained().len() == 0,
    {
        JournalState { state: GameState::default(), events: VecDeque::new() }
    }

    pub fn state(&self) -> (s: &GameState)
        ensures
            *s == self.game(),
    {
        &self.state
    }

    /// Apply one journal line, keeping it for correlation when it names an
    /// event. Returns whether it changed the game state.
    ///
    /// Unknown events are kept but change nothing: the journal gains new
    /// event types with every game update.
    pub fn apply(&mut self, line: JournalLine, source_file: String, byte_offset: u64, raw_json: String) -> (changed: bool)
        requires
            old(self).wf(),
        ensures
            final(self).wf(),
            changed == changes_state(line),
            final(self).game() == spec_apply(old(self).game(), line),
            final(self).retained() == match line.event {
                Some(name) => retain_newest(
                    old(self).retained(),
                    JournalEvent {
                        timestamp_utc: line.timestamp,
                        event: name,
                        source_file,
                        byte_offset,
                        raw_json,
                    },
                ),
                None => old(self).retained(),
            },
    {
        let name: String = match &line.event {
            Some(n) => n.clone(),
            None => {
                return false;
            },
        };
        self.events.push_back(
            JournalEvent {
                timestamp_utc: copy_text(&line.timestamp),
                event: name,
                source_file,
                byte_offset,
                raw_json,
            },
        );
        if self.events.len() > MAX_RETAINED_EVENTS {
            let ghost all = self.events@;
            let _ = self.events.pop_front();
            assert(self.events@ =~= all.drop_first());
        }
        let kind = match &line.event {
            Some(n) => event_kind(n.as_str()),
            None => EventKind::Other,
        };
        let position = coordinates_of(&line.star_pos);
        let JournalLine { event, timestamp, star_system, star_pos, system_address, body, music_track } = line;
        match kind {
            EventKind::Fileheader => {
                self.state.game_running = true;
            },
            EventKind::Arrival => {
                if star_system.is_some() {
                    self.state.star_system = star_system;
                }
                if position.is_some() {
                    self.state.star_pos = position;
                }
                self.state.system_address = system_address;
                self.state.body = body;
                self.state.game_running = true;
            },
            EventKind::SupercruiseEntry => {
                self.state.in_supercruise = true;
            },
            EventKind::SupercruiseExit => {
                self.state.in_supercruise = false;
                if body.is_some() {
                    self.state.body = body;
                }
            },
            EventKind::Music => {
                self.state.music_track = music_track;
            },
            EventKind::Shutdown => {
                self.state.game_running = false;
                self.state.in_supercruise = false;
            },
            EventKind::Other => {
                return false;
            },
        }
        self.state.last_event_utc = timestamp;
        true
    }

    /// Retained journal records whose timestamps lie in `[from, to]`, oldest
    /// first. Records without a readable timestamp are left out.
    pub fn correlate(&self, from: UtcInstant, to: UtcInstant) -> (found: Vec<JournalEvent>)
        ensures
            found@ == self.retained().filter(|e: JournalEvent| stamped_within(e, from, to)),
    {
        let mut found: Vec<JournalEvent> = Vec::new();
        let mut i: usize = 0;
        while i < self.events.len()
            invariant
                i <= self.events@.len(),
                found@ == self.events@.take(i as int).filter(
                    |e: JournalEvent| stamped_within(e, from, to),
                ),
            decreases self.events@.len() - i,
        {
            let e = &self.events[i];
            let keep = match &e.timestamp_utc {
                Some(t) => instant_within(parse_rfc3339(t.as_str()), from, to),
                None => false,
            };
            assert(keep == stamped_within(self.events@[i as int], from, to));
            proof {
                let f = |e: JournalEvent| stamped_within(e, from, to);
                assert(self.events@.take(i + 1) =~= self.events@.take(i as int).push(self.events@[i as int]));
                self.events@.take(i as int).lemma_filter_push(self.events@[i as int], f);
            }
            if keep {
                found.push(copy_event(e));
            }
            i = i + 1;
        }
        assert(self.events@.take(self.events@.len() as int) =~= self.events@);
        found
    }
}

} // verus!
