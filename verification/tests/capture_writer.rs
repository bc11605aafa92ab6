use ed_compass::capture_writer::{
    budget_bytes, capture_stem, span_stem, TriggerDecision, TriggerGate, HOUR_NANOS,
};
use ed_compass::text::sanitize;

const SECOND: u64 = 1_000_000_000;

/// A monotonic clock reading from a machine that has been up a while.
const T0: u64 = 7 * HOUR_NANOS;

/// Whether a score clears the trigger, as the runtime asks it.
fn below(score: f32, trigger_score: f32) -> bool {
    score < trigger_score
}

#[test]
fn a_weak_detection_never_reaches_the_disk() {
    let trigger_score = 0.6;
    let mut w = TriggerGate::new(0, 20);
    assert_eq!(
        w.evaluate(below(0.59, trigger_score), T0),
        TriggerDecision::BelowThreshold
    );
    assert!(w.evaluate(below(0.6, trigger_score), T0).accepted());
}

#[test]
fn the_cooldown_blocks_a_burst_of_triggers() {
    let mut w = TriggerGate::new(60 * SECOND, 20);
    let t0 = T0;

    assert!(w.evaluate(false, t0).accepted());
    w.note_capture(t0);
    assert_eq!(
        w.evaluate(false, t0 + 30 * SECOND),
        TriggerDecision::CoolingDown
    );
    assert!(w.evaluate(false, t0 + 61 * SECOND).accepted());
}

#[test]
fn the_hourly_cap_holds_and_then_rolls_off() {
    let mut w = TriggerGate::new(0, 3);
    let t0 = T0;

    for i in 0..3 {
        let t = t0 + i * 60 * SECOND;
        assert!(w.evaluate(false, t).accepted(), "capture {i} should be allowed");
        w.note_capture(t);
    }
    assert_eq!(
        w.evaluate(false, t0 + 200 * SECOND),
        TriggerDecision::HourlyLimit
    );
    assert!(w.evaluate(false, t0 + 3601 * SECOND).accepted());
}

#[test]
fn the_hourly_cap_rolls_off_early_in_a_session() {
    // A clock that started less than an hour ago forgets nothing yet.
    let mut w = TriggerGate::new(0, 1);
    w.note_capture(0);
    assert_eq!(w.evaluate(false, 10 * SECOND), TriggerDecision::HourlyLimit);
    assert!(w.evaluate(false, HOUR_NANOS + SECOND).accepted());
}

#[test]
fn asking_twice_gets_the_same_answer_and_records_nothing() {
    let mut w = TriggerGate::new(60 * SECOND, 2);
    w.note_capture(T0);
    for now in [T0 + 10 * SECOND, T0 + 61 * SECOND, T0 + HOUR_NANOS + SECOND] {
        let first = w.evaluate(false, now);
        assert_eq!(w.evaluate(false, now), first);
    }
    assert_eq!(w.captures_written(), 1);
}

#[test]
fn only_the_last_hour_counts_toward_the_cap() {
    let mut w = TriggerGate::new(0, 2);
    w.note_capture(T0);
    w.note_capture(T0 + HOUR_NANOS / 2);
    assert_eq!(w.evaluate(false, T0 + HOUR_NANOS), TriggerDecision::HourlyLimit);
    // The first capture is exactly an hour old: it still counts.
    assert_eq!(w.evaluate(false, T0 + HOUR_NANOS), TriggerDecision::HourlyLimit);
    // A moment later only the second one does.
    assert!(w.evaluate(false, T0 + HOUR_NANOS + 1).accepted());
}

#[test]
fn captures_are_counted() {
    let mut w = TriggerGate::new(0, 5);
    assert_eq!(w.captures_written(), 0);
    w.note_capture(T0);
    w.note_capture(T0 + SECOND);
    assert_eq!(w.captures_written(), 2);
}

#[test]
fn only_an_accept_is_accepted() {
    assert!(TriggerDecision::Accept.accepted());
    assert!(!TriggerDecision::BelowThreshold.accepted());
    assert!(!TriggerDecision::CoolingDown.accepted());
    assert!(!TriggerDecision::HourlyLimit.accepted());
}

#[test]
fn filenames_survive_awkward_system_names() {
    assert_eq!(sanitize("Stuemeae JM-W c1-5825"), "Stuemeae-JM-W-c1-5825");
    assert_eq!(sanitize("3311-08-13T14:22:07Z"), "3311-08-13T14-22-07Z");
    assert_eq!(
        sanitize("Col 285 Sector ZZ-Y b1/2"),
        "Col-285-Sector-ZZ-Y-b1-2"
    );
    assert!(!sanitize("a\\b:c*d?e").contains(['\\', ':', '*', '?']));
}

#[test]
fn sanitizing_keeps_the_length_in_characters() {
    let s = sanitize("Šol ✦ 4");
    assert_eq!(s.chars().count(), "Šol ✦ 4".chars().count());
    assert_eq!(s, "-ol---4");
}

#[test]
fn a_capture_is_filed_by_time_and_system() {
    assert_eq!(
        capture_stem("3311-08-13T14:22:07Z", Some("Stuemeae JM-W c1-5825")),
        "3311-08-13T14-22-07Z_Stuemeae-JM-W-c1-5825"
    );
    assert_eq!(
        capture_stem("3311-08-13T14:22:07Z", None),
        "3311-08-13T14-22-07Z_unknown"
    );
}

#[test]
fn a_kept_span_is_filed_by_time_reason_and_system() {
    assert_eq!(
        span_stem("3311-08-13T14:22:07+00:00", "keying", Some("Sol")),
        "3311-08-13T14-22-07-00-00_keying_Sol"
    );
    assert_eq!(
        span_stem("t", "manual", None),
        "t_manual_unknown"
    );
}

#[test]
fn budgets_are_mebibytes_and_saturate() {
    assert_eq!(budget_bytes(0), 0);
    assert_eq!(budget_bytes(2), 2_097_152);
    assert_eq!(budget_bytes(u64::MAX), u64::MAX);
}
