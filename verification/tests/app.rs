use ed_compass::app::{
    capture_is_recent, capture_span, disk_usage_stale, frames_to_keep, headless_step,
    may_take_message, needs_switch, ready_captures, resident_span, single_choice, AppState,
    CaptureReason, DiskUsage, FormatAction, HeadlessStep, PumpReadings, Status,
    MAX_MESSAGES_PER_PUMP,
};
use ed_compass::audio::capture::CaptureHealth;
use ed_compass::audio::format::{layout_name, MASK_7_1};

const SECOND: u64 = 1_000_000_000;
const RATE: u32 = 8_000;

/// A runtime whose stream has announced its format.
fn streaming() -> AppState {
    let mut a = AppState::new(true, true, "Speakers (loopback)".into());
    assert_eq!(a.on_format(false, 0), FormatAction::Restart);
    a
}

#[test]
fn starts_without_a_device_and_says_why() {
    let mut app = AppState::waiting_for_device(
        true,
        true,
        "no audio output device — plug in headphones or speakers".into(),
    );
    assert_eq!(app.status(), Status::DeviceLost);
    assert!(
        app.error().is_some_and(|e| e.contains("no audio output")),
        "the reason reaches the interface"
    );
    assert_eq!(app.device_label(), "no audio device");
    assert!(!app.engine_running);
    assert_eq!(app.events_recorded(), 0);
    // Pumping with nothing attached changes nothing.
    for i in 0..3u64 {
        let end = app.finish_pump(readings(i * SECOND / 10));
        assert_eq!(end.capture, None);
    }
    assert_eq!(app.status(), Status::DeviceLost);
    assert!(app.error().is_some_and(|e| e.contains("no audio output")));
    assert_eq!(app.device_label(), "no audio device");
    assert_eq!(app.events_recorded(), 0);
}

/// Readings at the end of a pump: every detector firing over live sound.
fn readings(now: u64) -> PumpReadings {
    PumpReadings {
        keying: true,
        structure: true,
        landscape: true,
        music_playing: false,
        warm: true,
        total_frames: 80_000,
        sample_rate: RATE,
        silent: false,
        now,
    }
}

#[test]
fn a_waiting_runtime_looks_for_a_device_every_two_seconds_and_stays_lost() {
    let mut app = AppState::waiting_for_device(true, true, "no device".into());
    assert!(app.finish_pump(readings(0)).probe);
    assert!(!app.finish_pump(readings(SECOND)).probe);
    assert!(app.finish_pump(readings(2 * SECOND)).probe);
    assert!(!app.finish_pump(readings(3 * SECOND)).probe);
    assert_eq!(app.status(), Status::DeviceLost);
    assert_eq!(app.error(), Some("no device"));
    assert!(!app.engine_running);
}

#[test]
fn the_end_of_a_pump_reads_the_detectors_and_the_status() {
    let mut app = streaming();
    let end = app.finish_pump(readings(0));
    assert_eq!(end.capture, Some(CaptureReason::Landscape));
    assert!(!end.probe);
    assert_eq!(app.status(), Status::Capturing);
    let again = app.finish_pump(readings(SECOND));
    assert_eq!(again.capture, None);
}

#[test]
fn a_pump_takes_at_most_its_share_of_messages() {
    assert_eq!(MAX_MESSAGES_PER_PUMP, 512);
    assert!(may_take_message(0));
    assert!(may_take_message(511));
    assert!(!may_take_message(512));
    assert!(!may_take_message(usize::MAX));
}

#[test]
fn a_file_source_never_reaches_for_a_device() {
    let mut app = AppState::new(true, true, "Speakers (loopback)".into());
    app.on_stopped(5 * SECOND);
    assert!(!app.reconnect, "synthetic and file sources do not reconnect");
    assert!(!app.probe_due(10 * SECOND));
}

#[test]
fn a_live_source_looks_for_its_device_every_two_seconds() {
    let mut app = AppState::waiting_for_device(true, true, "gone".into());
    assert!(app.probe_due(10 * SECOND));
    assert!(!app.probe_due(11 * SECOND));
    assert!(app.probe_due(12 * SECOND));
    app.on_attached("Headphones (loopback)".into());
    assert_eq!(app.device_label(), "Headphones (loopback)");
    assert_eq!(app.status(), Status::Starting);
    assert_eq!(app.error(), None);
    assert!(!app.probe_due(20 * SECOND), "attached: nothing to look for");
}

#[test]
fn confirming_the_running_device_does_not_restart_capture() {
    assert!(!needs_switch("already-open", "already-open", true));
    assert!(needs_switch("already-open", "another", true));
    assert!(needs_switch("already-open", "already-open", false));
}

#[test]
fn switching_device_discards_the_analysis() {
    let mut app = streaming();
    app.note_anomaly(500);
    app.on_error("gone".into(), SECOND);
    app.on_switched_device("Headphones (loopback)".into());
    assert_eq!(app.status(), Status::Starting);
    assert_eq!(app.error(), None);
    assert!(!app.engine_running);
    assert_eq!(app.last_anomaly_frame, 0);
    assert_eq!(app.device_lost_at, None);
}

#[test]
fn the_runtime_shows_its_device_and_counts_its_events() {
    let mut app = AppState::new(true, true, "Speakers (loopback)".into());
    assert_eq!(app.device_label(), "Speakers (loopback)");
    assert_eq!(app.events_recorded(), 0);
    app.record_event();
    app.record_event();
    assert_eq!(app.events_recorded(), 2);
    app.on_switched_device("Headphones (loopback)".into());
    assert_eq!(app.device_label(), "Headphones (loopback)");
    assert_eq!(app.events_recorded(), 2, "the event list survives a switch");
}

#[test]
fn the_format_message_starts_the_engine() {
    let mut app = AppState::new(true, true, "Speakers (loopback)".into());
    assert_eq!(app.status(), Status::Starting);
    assert_eq!(app.on_format(false, 0), FormatAction::Restart);
    assert!(app.engine_running);
    assert_eq!(layout_name(MASK_7_1, 8), "7.1");
    assert_ne!(app.status(), Status::Starting);
}

#[test]
fn silence_reports_no_signal_and_writes_nothing() {
    let mut app = streaming();
    app.update_status(true, 10 * RATE as u64, RATE, true);
    assert_eq!(app.status(), Status::NoSignal);
    assert_eq!(app.check_detectors(false, false, false, false), None);
}

#[test]
fn a_capture_error_is_surfaced_rather_than_swallowed() {
    let mut app = streaming();
    app.on_error("the endpoint went away".into(), 3 * SECOND);
    app.on_stopped(4 * SECOND);
    app.update_status(true, 0, RATE, false);
    assert_eq!(app.status(), Status::DeviceLost);
    assert_eq!(app.error(), Some("the endpoint went away"));
    assert_eq!(app.device_lost_at, Some(3 * SECOND));
}

#[test]
fn a_short_same_format_reconnect_preserves_history_and_marks_the_gap() {
    let mut app = streaming();
    app.on_error("test disconnect".into(), 10 * SECOND);
    assert_eq!(
        app.on_format(true, 12 * SECOND),
        FormatAction::KeepWithGap(2 * SECOND)
    );
    assert!(app.engine_running);
    assert_eq!(app.device_lost_at, None);
}

#[test]
fn a_long_outage_or_a_new_format_restarts_the_analysis() {
    let mut app = streaming();
    app.on_error("gone".into(), 10 * SECOND);
    assert_eq!(app.on_format(true, 41 * SECOND), FormatAction::Restart);
    assert_eq!(app.status(), Status::Warming);

    let mut other = streaming();
    other.on_disconnected(10 * SECOND);
    assert_eq!(other.on_format(false, 11 * SECOND), FormatAction::Restart);
}

#[test]
fn status_recovers_from_warming_to_a_steady_state() {
    let mut app = streaming();
    assert_eq!(app.status(), Status::Warming);
    app.update_status(false, RATE as u64, RATE, false);
    assert_eq!(app.status(), Status::Warming);
    app.update_status(true, 30 * RATE as u64, RATE, false);
    assert_eq!(app.status(), Status::Capturing);
}

#[test]
fn an_anomaly_holds_the_status_for_ten_seconds_of_audio() {
    let mut app = streaming();
    app.note_anomaly(100 * RATE as u64);
    app.update_status(true, 105 * RATE as u64, RATE, false);
    assert_eq!(app.status(), Status::Anomaly);
    app.update_status(true, 110 * RATE as u64, RATE, false);
    assert_eq!(app.status(), Status::Capturing);
}

#[test]
fn a_stop_after_an_error_keeps_the_error_status() {
    let mut app = streaming();
    app.on_stopped(SECOND);
    assert_eq!(app.status(), Status::DeviceLost);
    assert_eq!(app.error(), None);
}

#[test]
fn detectors_keep_audio_on_the_rising_edge_only() {
    let mut app = streaming();
    assert_eq!(
        app.check_detectors(true, false, false, false),
        Some(CaptureReason::Keying)
    );
    assert_eq!(app.check_detectors(true, false, false, false), None);
    assert_eq!(
        app.check_detectors(true, true, true, false),
        Some(CaptureReason::Landscape),
        "the Landscape Signal outranks the others"
    );
    assert_eq!(app.check_detectors(false, false, false, false), None);
    assert_eq!(
        app.check_detectors(false, true, false, false),
        Some(CaptureReason::Structure)
    );
    assert_eq!(CaptureReason::Landscape.as_str(), "landscape");
}

#[test]
fn keying_during_music_is_suspect() {
    let mut app = streaming();
    app.check_detectors(true, false, false, true);
    assert!(app.keying_suspect());
    app.check_detectors(true, false, false, false);
    assert!(!app.keying_suspect());
    app.check_detectors(false, false, true, true);
    assert!(!app.keying_suspect());
    assert!(app.landscape_present());
}

#[test]
fn switching_a_detector_off_clears_its_lamp() {
    let mut app = streaming();
    app.check_detectors(true, true, false, false);
    assert_eq!(app.detections_present(), (true, true));
    app.set_detectors(false, true);
    assert_eq!(app.detections_present(), (false, true));
    assert!(!app.detect_keying);
}

#[test]
fn pausing_drops_audio_but_keeps_the_stream() {
    let mut app = streaming();
    assert!(app.accepts_audio());
    app.set_paused(true);
    assert!(app.is_paused());
    assert!(!app.accepts_audio());
    app.set_paused(false);
    assert!(app.accepts_audio());
    assert!(!AppState::new(true, true, "Speakers (loopback)".into()).accepts_audio(), "no engine yet");
}

#[test]
fn health_reports_are_kept() {
    let mut app = streaming();
    let h = CaptureHealth { callbacks: 3, ..CaptureHealth::default() };
    app.on_health(h);
    assert_eq!(app.capture_health, Some(h));
}

#[test]
fn a_rebuilt_engine_clears_a_stale_error() {
    let mut app = streaming();
    app.on_error("old".into(), SECOND);
    app.engine_rebuilt();
    assert_eq!(app.status(), Status::Warming);
    assert_eq!(app.error(), None);
}

#[test]
fn captures_wait_for_their_post_roll() {
    assert_eq!(capture_span(5_120, 51_200, 4_000, 4_000), (1_120, 55_200));
    assert_eq!(capture_span(100, 200, 4_000, 0), (0, 200));
    let ready = ready_captures(&[55_200, 10, 90_000, 55_200], 60_000);
    assert_eq!(ready, vec![0, 1, 3]);
    assert!(ready_captures(&[], 1).is_empty());
}

#[test]
fn only_resident_audio_is_written() {
    assert_eq!(resident_span(100, 900, 300, 800), Some((300, 800)));
    assert_eq!(resident_span(100, 200, 300, 800), None);
    assert_eq!(resident_span(400, 500, 0, 1_000), Some((400, 500)));
}

#[test]
fn keeping_recent_audio_takes_what_the_ring_holds() {
    assert_eq!(frames_to_keep(1_000, 400), Some(400));
    assert_eq!(frames_to_keep(300, 400), Some(300));
    assert_eq!(frames_to_keep(300, 0), None);
}

#[test]
fn disk_usage_is_cached_for_five_seconds() {
    assert!(disk_usage_stale(false, None, 0));
    assert!(!disk_usage_stale(false, Some(10 * SECOND), 14 * SECOND));
    assert!(disk_usage_stale(false, Some(10 * SECOND), 15 * SECOND));
    assert!(disk_usage_stale(true, Some(10 * SECOND), 10 * SECOND));
    assert_eq!(DiskUsage::default().records, 0);
}

#[test]
fn a_recent_capture_stands_for_an_export() {
    assert!(capture_is_recent(10 * SECOND, 40 * SECOND, 30 * SECOND));
    assert!(!capture_is_recent(10 * SECOND, 41 * SECOND, 30 * SECOND));
}

#[test]
fn the_console_run_ends_with_the_input() {
    assert_eq!(headless_step(Status::DeviceLost, true, false), HeadlessStep::Failed);
    assert_eq!(headless_step(Status::DeviceLost, false, true), HeadlessStep::Finished);
    assert_eq!(headless_step(Status::Capturing, false, true), HeadlessStep::LimitReached);
    assert_eq!(headless_step(Status::Warming, false, false), HeadlessStep::Continue);
}

#[test]
fn one_test_signal_at_a_time() {
    assert_eq!(single_choice(&[false, false, false]), Ok(None));
    assert_eq!(single_choice(&[false, true, false]), Ok(Some(1)));
    assert_eq!(single_choice(&[true, true, false, true]), Err(3));
    assert_eq!(single_choice(&[]), Ok(None));
}

#[test]
fn status_labels_read_as_lamps() {
    assert_eq!(Status::Starting.label(), "● STARTING");
    assert_eq!(Status::Warming.label(), "● LEARNING BACKGROUND");
    assert_eq!(Status::Capturing.label(), "● CAPTURING");
    assert_eq!(Status::NoSignal.label(), "● NO SIGNAL");
    assert_eq!(Status::Anomaly.label(), "● ANOMALY");
    assert_eq!(Status::DeviceLost.label(), "● DEVICE LOST");
}
