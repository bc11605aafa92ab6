use ed_compass::journal::{
    instant_within, GameState, JournalLine, JournalState, UtcInstant, MAX_RETAINED_EVENTS,
};
use ed_compass::journal_tail::{journal_name, newest_journal, JournalCursor, LineSpan};
use ed_compass::text::trim;

/// The fields of one journal line, read the way the watcher reads them.
fn parse(text: &str) -> Option<JournalLine> {
    let value: serde_json::Value = serde_json::from_str(text).ok()?;
    let text_field = |key: &str| {
        value
            .get(key)
            .and_then(|v| v.as_str())
            .map(str::to_owned)
    };
    Some(JournalLine {
        event: text_field("event"),
        timestamp: text_field("timestamp"),
        star_system: text_field("StarSystem"),
        star_pos: value
            .get("StarPos")
            .and_then(|v| v.as_array())
            .map(|a| a.iter().map(|c| c.as_f64().map(f64::to_bits)).collect()),
        system_address: value.get("SystemAddress").and_then(|v| v.as_u64()),
        body: text_field("Body"),
        music_track: text_field("MusicTrack"),
    })
}

/// Apply one line of text, as the watcher does for a line read from disk.
fn apply_line_at(j: &mut JournalState, line: &str, source_file: &str, offset: u64) -> bool {
    let line = trim(line);
    match parse(&line) {
        Some(parsed) => j.apply(parsed, source_file.to_owned(), offset, line),
        None => false,
    }
}

fn apply_line(j: &mut JournalState, line: &str) -> bool {
    apply_line_at(j, line, "<memory>", 0)
}

fn star_pos(s: &GameState) -> Option<[f64; 3]> {
    s.star_pos.map(|p| [f64::from_bits(p[0]), f64::from_bits(p[1]), f64::from_bits(p[2])])
}

/// Poll `text` as the contents of `file`, applying every complete line.
fn poll(cursor: &mut JournalCursor, j: &mut JournalState, file: &str, text: &str) -> usize {
    cursor.follow(file);
    let spans: Vec<LineSpan> = cursor.take_lines(text.as_bytes());
    let mut applied = 0;
    for span in spans {
        let line = &text[span.start as usize..span.end as usize];
        if apply_line_at(j, line, file, span.start) {
            applied += 1;
        }
    }
    applied
}

#[test]
fn an_fsd_jump_sets_system_and_coordinates() {
    let mut w = JournalState::new();
    assert!(apply_line(
        &mut w,
        r#"{"timestamp":"3311-08-13T14:22:07Z","event":"FSDJump","StarSystem":"Stuemeae JM-W c1-5825","SystemAddress":12345,"StarPos":[0.0,0.0,25899.0]}"#
    ));
    let s = w.state();
    assert_eq!(s.star_system.as_deref(), Some("Stuemeae JM-W c1-5825"));
    assert_eq!(star_pos(s), Some([0.0, 0.0, 25899.0]));
    assert_eq!(s.system_address, Some(12345));
    assert_eq!(s.last_event_utc.as_deref(), Some("3311-08-13T14:22:07Z"));
    assert!(s.game_running);
}

#[test]
fn supercruise_transitions_are_tracked() {
    let mut w = JournalState::new();
    assert!(apply_line(&mut w, r#"{"event":"SupercruiseEntry","StarSystem":"Sol"}"#));
    assert!(w.state().in_supercruise);
    assert!(apply_line(&mut w, r#"{"event":"SupercruiseExit","Body":"Sol 4"}"#));
    assert!(!w.state().in_supercruise);
    assert_eq!(w.state().body.as_deref(), Some("Sol 4"));
}

#[test]
fn music_track_is_recorded() {
    let mut w = JournalState::new();
    apply_line(&mut w, r#"{"event":"Music","MusicTrack":"Exploration"}"#);
    assert_eq!(w.state().music_track.as_deref(), Some("Exploration"));
    assert!(w.state().music_playing());
}

#[test]
fn no_track_does_not_count_as_music() {
    let mut w = JournalState::new();
    assert!(!w.state().music_playing(), "unknown is not playing");
    apply_line(&mut w, r#"{"event":"Music","MusicTrack":"NoTrack"}"#);
    assert!(!w.state().music_playing());
    apply_line(&mut w, r#"{"event":"Music","MusicTrack":"Supercruise"}"#);
    assert!(w.state().music_playing());
}

#[test]
fn shutdown_marks_the_game_as_gone() {
    let mut w = JournalState::new();
    apply_line(&mut w, r#"{"event":"Fileheader"}"#);
    assert!(w.state().game_running);
    apply_line(&mut w, r#"{"event":"SupercruiseEntry"}"#);
    apply_line(&mut w, r#"{"event":"Shutdown"}"#);
    assert!(!w.state().game_running);
    assert!(!w.state().in_supercruise);
}

#[test]
fn unknown_and_malformed_lines_are_ignored() {
    let mut w = JournalState::new();
    assert!(!apply_line(&mut w, ""));
    assert!(!apply_line(&mut w, "not json at all"));
    assert!(!apply_line(&mut w, "{}"));
    assert!(!apply_line(
        &mut w,
        r#"{"event":"SomeEventAddedInAFutureUpdate","x":1}"#
    ));
    assert_eq!(w.state(), &GameState::default());
}

#[test]
fn partial_coordinates_do_not_produce_a_bogus_position() {
    let mut w = JournalState::new();
    apply_line(&mut w, r#"{"event":"FSDJump","StarSystem":"X","StarPos":[1.0,2.0]}"#);
    assert_eq!(w.state().star_pos, None);
    apply_line(
        &mut w,
        r#"{"event":"FSDJump","StarSystem":"Y","StarPos":[1.0,"bad",3.0]}"#,
    );
    assert_eq!(w.state().star_pos, None);
    assert_eq!(w.state().star_system.as_deref(), Some("Y"));
}

#[test]
fn an_arrival_without_a_system_keeps_the_last_one() {
    let mut w = JournalState::new();
    apply_line(&mut w, r#"{"event":"Location","StarSystem":"Sol","Body":"Earth","SystemAddress":7}"#);
    apply_line(&mut w, r#"{"event":"CarrierJump"}"#);
    assert_eq!(w.state().star_system.as_deref(), Some("Sol"));
    assert_eq!(w.state().body, None, "an arrival names its body or none");
    assert_eq!(w.state().system_address, None);
}

#[test]
fn only_a_state_change_moves_the_last_event_time() {
    let mut w = JournalState::new();
    apply_line(&mut w, r#"{"timestamp":"A","event":"Music","MusicTrack":"NoTrack"}"#);
    apply_line(&mut w, r#"{"timestamp":"B","event":"ReceiveText"}"#);
    assert_eq!(w.state().last_event_utc.as_deref(), Some("A"));
}

#[test]
fn tails_appended_lines_and_follows_rotation() {
    let first = "Journal.2311-08-13T140000.01.log";
    let mut cursor = JournalCursor::new();
    let mut w = JournalState::new();

    let mut content = String::from(
        "{\"event\":\"Fileheader\"}\n{\"event\":\"Location\",\"StarSystem\":\"Sol\",\"StarPos\":[0.0,0.0,0.0]}\n",
    );
    assert_eq!(poll(&mut cursor, &mut w, first, &content), 2);
    assert_eq!(w.state().star_system.as_deref(), Some("Sol"));

    // Nothing new.
    assert_eq!(poll(&mut cursor, &mut w, first, &content), 0);

    // Append, including a half-written trailing line.
    content.push_str(
        "{\"event\":\"FSDJump\",\"StarSystem\":\"Merope\",\"StarPos\":[-78.6,-149.6,-340.5]}\n{\"event\":\"FSD",
    );
    assert_eq!(poll(&mut cursor, &mut w, first, &content), 1);
    assert_eq!(w.state().star_system.as_deref(), Some("Merope"));

    // A new log file appears: the game restarted.
    let second = "Journal.2311-08-13T150000.01.log";
    let fresh = "{\"event\":\"Location\",\"StarSystem\":\"Shinrarta Dezhra\",\"StarPos\":[55.7,17.6,27.2]}\n";
    assert_eq!(poll(&mut cursor, &mut w, second, fresh), 1);
    assert_eq!(w.state().star_system.as_deref(), Some("Shinrarta Dezhra"));
    assert_eq!(cursor.current_file(), Some(second));
}

#[test]
fn the_rest_of_a_half_written_line_arrives_with_the_next_poll() {
    let file = "Journal.log";
    let mut cursor = JournalCursor::new();
    let mut w = JournalState::new();
    let mut content = String::from("{\"event\":\"FSDJump\",\"StarSys");
    assert_eq!(poll(&mut cursor, &mut w, file, &content), 0);
    assert_eq!(cursor.consumed(), 0);
    content.push_str("tem\":\"Merope\"}\r\n");
    assert_eq!(poll(&mut cursor, &mut w, file, &content), 1);
    assert_eq!(w.state().star_system.as_deref(), Some("Merope"));
    assert_eq!(cursor.consumed(), content.len() as u64);
}

#[test]
fn line_spans_leave_out_the_line_endings() {
    let mut cursor = JournalCursor::new();
    cursor.follow("f");
    let spans = cursor.take_lines(b"ab\r\n\ncd\nef");
    assert_eq!(
        spans,
        vec![
            LineSpan { start: 0, end: 2 },
            LineSpan { start: 4, end: 4 },
            LineSpan { start: 5, end: 7 },
        ]
    );
    assert_eq!(cursor.consumed(), 8);
}

#[test]
fn a_truncated_file_is_re_read_rather_than_read_past_the_end() {
    let file = "Journal.2311-01-01T000000.01.log";
    let mut cursor = JournalCursor::new();
    let mut w = JournalState::new();

    let long = "{\"event\":\"Location\",\"StarSystem\":\"Aaa\"}\n".repeat(5);
    assert_eq!(poll(&mut cursor, &mut w, file, &long), 5);

    let short = "{\"event\":\"Location\",\"StarSystem\":\"Bbb\"}\n";
    assert_eq!(poll(&mut cursor, &mut w, file, short), 1);
    assert_eq!(w.state().star_system.as_deref(), Some("Bbb"));
}

fn instant(text: &str) -> UtcInstant {
    let t = chrono::DateTime::parse_from_rfc3339(text).unwrap();
    UtcInstant {
        secs: t.timestamp(),
        nanos: t.timestamp_subsec_nanos(),
    }
}

#[test]
fn correlation_keeps_raw_events_and_auditable_source_offsets() {
    let file = "Journal.3311-08-13T140000.01.log";
    let first = r#"{"timestamp":"3311-08-13T14:22:00Z","event":"Music","MusicTrack":"Exploration"}"#;
    let second = r#"{"timestamp":"3311-08-13T14:22:07Z","event":"FSDJump","StarSystem":"Test"}"#;
    let text = format!("{first}\n{second}\n");

    let mut cursor = JournalCursor::new();
    let mut w = JournalState::new();
    assert_eq!(poll(&mut cursor, &mut w, file, &text), 2);

    // The audio instant, widened by a two-second window.
    let start = instant("3311-08-13T14:22:06Z");
    let from = UtcInstant { secs: start.secs - 2, nanos: start.nanos };
    let to = UtcInstant { secs: start.secs + 2, nanos: start.nanos };
    let events = w.correlate(from, to);
    assert_eq!(events.len(), 1);
    let event = &events[0];
    assert_eq!(event.event, "FSDJump");
    assert_eq!(event.source_file, "Journal.3311-08-13T140000.01.log");
    assert_eq!(event.byte_offset, first.len() as u64 + 1);
    assert_eq!(event.raw_json, second);
}

#[test]
fn records_without_a_readable_timestamp_never_correlate() {
    let mut w = JournalState::new();
    apply_line(&mut w, r#"{"event":"Music","MusicTrack":"X"}"#);
    apply_line(&mut w, r#"{"timestamp":"yesterday","event":"Music","MusicTrack":"Y"}"#);
    apply_line(&mut w, r#"{"timestamp":"3311-08-13T14:22:07.5+01:00","event":"Music","MusicTrack":"Z"}"#);
    let at = instant("3311-08-13T13:22:07.5Z");
    let found = w.correlate(at, at);
    assert_eq!(found.len(), 1, "the bounds are inclusive and the offset is honoured");
    assert!(found[0].raw_json.contains("\"Z\""));
    assert!(w.correlate(UtcInstant { secs: at.secs, nanos: 0 }, UtcInstant { secs: at.secs, nanos: 400_000_000 }).is_empty());
}

#[test]
fn only_the_newest_records_are_kept() {
    let mut w = JournalState::new();
    for i in 0..(MAX_RETAINED_EVENTS + 3) {
        let line = format!(
            "{{\"timestamp\":\"3311-08-13T14:22:07Z\",\"event\":\"E{i}\"}}"
        );
        apply_line(&mut w, &line);
    }
    let at = instant("3311-08-13T14:22:07Z");
    let kept = w.correlate(at, at);
    assert_eq!(kept.len(), MAX_RETAINED_EVENTS);
    assert_eq!(kept[0].event, "E3");
    assert_eq!(kept[kept.len() - 1].event, format!("E{}", MAX_RETAINED_EVENTS + 2));
}

#[test]
fn two_polls_of_a_growing_file_deliver_what_one_would() {
    let before = "a\nbb\r\nccc";
    let after = "a\nbb\r\nccc\ndddd\nee";

    let mut twice = JournalCursor::new();
    twice.follow("f");
    let mut spans = twice.take_lines(before.as_bytes());
    spans.extend(twice.take_lines(after.as_bytes()));

    let mut once = JournalCursor::new();
    once.follow("f");
    let all = once.take_lines(after.as_bytes());

    assert_eq!(spans, all);
    assert_eq!(twice.consumed(), once.consumed());
    assert_eq!(once.consumed(), 15);
}

#[test]
fn following_another_file_starts_it_from_the_beginning() {
    let mut cursor = JournalCursor::new();
    assert!(cursor.follow("a.log"));
    cursor.take_lines(b"x\ny\n");
    assert_eq!(cursor.consumed(), 4);
    assert!(!cursor.follow("a.log"));
    assert_eq!(cursor.consumed(), 4);
    assert!(cursor.follow("b.log"));
    assert_eq!(cursor.consumed(), 0);
    assert_eq!(cursor.current_file(), Some("b.log"));
}

#[test]
fn correlation_bounds_are_inclusive_to_the_nanosecond() {
    let from = UtcInstant { secs: 100, nanos: 500 };
    let to = UtcInstant { secs: 102, nanos: 0 };
    assert!(instant_within(Some((100, 500)), from, to));
    assert!(!instant_within(Some((100, 499)), from, to));
    assert!(instant_within(Some((101, 1_999_999_999)), from, to));
    assert!(instant_within(Some((102, 0)), from, to));
    assert!(!instant_within(Some((102, 1)), from, to));
    assert!(!instant_within(None, from, to));
}

#[test]
fn a_line_without_an_event_is_neither_applied_nor_kept() {
    let mut w = JournalState::new();
    let no_event = JournalLine {
        event: None,
        timestamp: Some("3311-08-13T14:22:07Z".into()),
        star_system: Some("Sol".into()),
        star_pos: None,
        system_address: None,
        body: None,
        music_track: None,
    };
    assert!(!w.apply(no_event, "f".into(), 0, "{}".into()));
    let at = instant("3311-08-13T14:22:07Z");
    assert!(w.correlate(at, at).is_empty());
    assert_eq!(w.state(), &GameState::default());
}

#[test]
fn only_three_numbers_make_a_position() {
    let mut w = JournalState::new();
    let jump = |pos: Option<Vec<Option<u64>>>| JournalLine {
        event: Some("FSDJump".into()),
        timestamp: None,
        star_system: None,
        star_pos: pos,
        system_address: None,
        body: None,
        music_track: None,
    };
    w.apply(jump(Some(vec![Some(1), Some(2), Some(3), Some(4)])), "f".into(), 0, String::new());
    assert_eq!(w.state().star_pos, None);
    w.apply(jump(Some(vec![Some(1), None, Some(3)])), "f".into(), 0, String::new());
    assert_eq!(w.state().star_pos, None);
    w.apply(jump(Some(vec![Some(1), Some(2), Some(3)])), "f".into(), 0, String::new());
    assert_eq!(w.state().star_pos, Some([1, 2, 3]));
    w.apply(jump(None), "f".into(), 0, String::new());
    assert_eq!(w.state().star_pos, Some([1, 2, 3]), "a jump without coordinates keeps the last");
}

#[test]
fn trimming_removes_unicode_white_space_at_both_ends() {
    assert_eq!(trim("  {\"a\":1}\t\r\n"), "{\"a\":1}");
    assert_eq!(trim("\u{3000}x y\u{2029}"), "x y");
    assert_eq!(trim(" \n "), "");
    assert_eq!(trim("zz"), "zz");
}

#[test]
fn the_newest_journal_is_followed() {
    let names: Vec<String> = vec![
        "Journal.2311-08-13T140000.01.log".into(),
        "Status.json".into(),
        "Journal.2311-08-13T150000.01.log".into(),
        "Journal.2311-08-13T160000.01.log".into(),
        "Journal.cache".into(),
    ];
    let at = |secs: i64| Some(UtcInstant { secs, nanos: 0 });
    let modified = vec![at(10), at(99), at(20), None, at(50)];
    assert_eq!(newest_journal(&names, &modified), Some(2));
    // A tie keeps the first seen.
    let tied = vec![at(20), at(99), at(20), None, at(50)];
    assert_eq!(newest_journal(&names, &tied), Some(0));
    assert_eq!(newest_journal(&names[1..2], &modified[1..2]), None);
    assert!(journal_name("Journal.log"));
    assert!(!journal_name("journal.log"));
    assert!(!journal_name("Journal.log.bak"));
}
