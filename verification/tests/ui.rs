use ed_compass::app::Status;
use ed_compass::capture_writer::TriggerDecision;
use ed_compass::ui::events::{decision_label, short_time};
use ed_compass::ui::overlay::{mib, OverlayAttention, Rung};
use ed_compass::ui::waterfall::{paint_span, row_median};
use ed_compass::ui::{
    active_backend, backend_code, export_height, overlay_visible, present_overlay,
    sanitize_for_filename, Backend,
};

#[test]
fn timestamps_are_trimmed_to_the_clock() {
    assert_eq!(short_time("3311-08-13T14:22:07Z"), "14:22:07");
    assert_eq!(short_time("3311-08-13T14:22:07.123+00:00"), "14:22:07");
    assert_eq!(short_time("no-t-here"), "no-t-here");
}

#[test]
fn only_the_part_between_the_first_two_t_is_a_clock() {
    assert_eq!(short_time("aTbcTd"), "bc");
    assert_eq!(short_time("T"), "");
}

#[test]
fn an_accepted_capture_needs_no_explanation() {
    assert_eq!(decision_label(TriggerDecision::Accept), "");
    assert!(!decision_label(TriggerDecision::CoolingDown).is_empty());
    assert!(!decision_label(TriggerDecision::HourlyLimit).is_empty());
    assert!(!decision_label(TriggerDecision::BelowThreshold).is_empty());
}

#[test]
fn the_overlay_follows_the_game_s_focus() {
    assert!(overlay_visible(true, true), "Elite in front: show");
    assert!(
        !overlay_visible(true, false),
        "Alt-Tabbed away: the overlay must go with it, not float over the browser"
    );
}

#[test]
fn it_starts_hidden_and_is_revealed_only_by_the_game() {
    assert!(
        !overlay_visible(true, false),
        "our window focused, Elite not: stay hidden"
    );
    assert!(!overlay_visible(false, false), "no game at all: stay hidden");
    assert!(overlay_visible(true, true));
}

#[test]
fn no_game_window_means_no_overlay_at_all() {
    assert!(!overlay_visible(false, false));
    assert!(
        !overlay_visible(false, true),
        "a focused window we cannot find is not the game"
    );
}

#[test]
fn visibility_is_stable_while_the_game_stays_focused() {
    for _ in 0..10 {
        assert!(overlay_visible(true, true));
    }
}

#[test]
fn the_overlay_window_is_never_torn_down_to_hide_it() {
    // Before the opacity call has succeeded, a hidden overlay is parked.
    let p = present_overlay(true, true, false, None);
    assert!(!p.showing);
    assert!(p.parked);
    assert_eq!(p.wanted_alpha, 0);
    assert!(p.set_alpha);
    // Once transparent, it stays in place, painting nothing.
    let q = present_overlay(true, true, false, Some(0));
    assert!(!q.parked);
    assert!(!q.set_alpha);
    // Shown over the game when it is focused.
    let r = present_overlay(true, true, true, Some(0));
    assert!(r.showing && !r.parked && r.set_alpha);
    assert_eq!(r.wanted_alpha, 255);
    assert!(!present_overlay(false, true, true, Some(255)).showing, "switched off");
}

#[test]
fn the_ladder_is_monotonic() {
    for signal in [false, true] {
        for cypher in [false, true] {
            for anomaly in [false, true] {
                let rung = Rung::of(anomaly, cypher, signal);
                let lit = |r: Rung| rung.is_some_and(|got| got >= r);
                if lit(Rung::Signal) {
                    assert!(lit(Rung::Cypher), "SIGNAL lit with CYPHER dark");
                }
                if lit(Rung::Cypher) {
                    assert!(lit(Rung::Anomaly), "CYPHER lit with ANOMALY dark");
                }
                assert_eq!(
                    rung.is_some(),
                    anomaly || cypher || signal,
                    "a lamp must light for any evidence at all"
                );
            }
        }
    }
}

#[test]
fn an_unnamed_anomaly_still_lights_the_panel() {
    let rung = Rung::of(true, false, false);
    assert_eq!(rung, Some(Rung::Anomaly));
    assert!(
        rung.is_some(),
        "the panel must not go dark on a real detection"
    );
}

#[test]
fn a_named_signal_reaches_the_top_rung_alone() {
    assert_eq!(Rung::of(false, false, true), Some(Rung::Signal));
    assert_eq!(Rung::of(false, true, false), Some(Rung::Cypher));
    assert_eq!(Rung::of(false, false, false), None);
}

#[test]
fn a_brief_detection_survives_being_resampled() {
    let samples = [
        None,
        Some(Rung::Anomaly),
        Some(Rung::Signal),
        Some(Rung::Anomaly),
        None,
    ];
    let strongest = samples.iter().copied().fold(
        None,
        |acc: Option<Rung>, r| {
            if r > acc { r } else { acc }
        },
    );
    assert_eq!(
        strongest,
        Some(Rung::Signal),
        "the strongest rung in a slice is what the strip must show"
    );
}

#[test]
fn rungs_order_from_weakest_to_strongest() {
    assert!(Some(Rung::Anomaly) > None);
    assert!(Some(Rung::Cypher) > Some(Rung::Anomaly));
    assert!(Some(Rung::Signal) > Some(Rung::Cypher));
    assert!(Rung::Anomaly.rank() < Rung::Cypher.rank());
    assert!(Rung::Cypher.rank() < Rung::Signal.rank());
}

#[test]
fn the_strongest_rung_wins_where_spans_overlap() {
    let mut slots = vec![None; 6];
    paint_span(&mut slots, 1, 3, Rung::Anomaly);
    paint_span(&mut slots, 2, 4, Rung::Signal);
    paint_span(&mut slots, 0, 5, Rung::Anomaly);
    assert_eq!(
        slots,
        vec![
            Some(Rung::Anomaly),
            Some(Rung::Anomaly),
            Some(Rung::Signal),
            Some(Rung::Signal),
            Some(Rung::Signal),
            Some(Rung::Anomaly),
        ]
    );
}

#[test]
fn a_span_beyond_the_strip_marks_only_what_exists() {
    let mut slots = vec![None; 3];
    paint_span(&mut slots, 2, 10, Rung::Cypher);
    assert_eq!(slots, vec![None, None, Some(Rung::Cypher)]);
    paint_span(&mut slots, 2, 1, Rung::Signal);
    assert_eq!(slots, vec![None, None, Some(Rung::Cypher)], "an empty span marks nothing");
}

#[test]
fn the_border_asks_for_attention_only_when_not_listening() {
    assert_eq!(OverlayAttention::of(Status::Starting), Some(OverlayAttention::NotReady));
    assert_eq!(OverlayAttention::of(Status::Warming), Some(OverlayAttention::NotReady));
    assert_eq!(OverlayAttention::of(Status::DeviceLost), Some(OverlayAttention::Broken));
    assert_eq!(OverlayAttention::of(Status::Capturing), None);
    assert_eq!(OverlayAttention::of(Status::NoSignal), None);
    assert_eq!(OverlayAttention::of(Status::Anomaly), None);
}

#[test]
fn row_median_finds_the_steady_level() {
    let mut row = vec![90u8; 100];
    row[10] = 250;
    row[60] = 240;
    assert_eq!(
        row_median(&row),
        90,
        "a few crossings must not move the median"
    );
    assert_eq!(row_median(&[]), 0);
}

#[test]
fn row_median_of_small_rows() {
    assert_eq!(row_median(&[7]), 7);
    assert_eq!(row_median(&[1, 9]), 9);
    assert_eq!(row_median(&[3, 1, 2]), 2);
    assert_eq!(row_median(&[255, 255, 0]), 255);
}

#[test]
fn disk_sizes_are_whole_mebibytes() {
    assert_eq!(mib(0), "0 MB");
    assert_eq!(mib(1_048_575), "0 MB");
    assert_eq!(mib(5 * 1_048_576 + 7), "5 MB");
    assert_eq!(mib(u64::MAX), "17592186044415 MB");
}

#[test]
fn renderer_names_are_forgiving() {
    assert_eq!(Backend::parse("glow"), Some(Backend::Glow));
    assert_eq!(Backend::parse("  OpenGL\n"), Some(Backend::Glow));
    assert_eq!(Backend::parse("GL"), Some(Backend::Glow));
    assert_eq!(Backend::parse("WGPU"), Some(Backend::Wgpu));
    assert_eq!(Backend::parse("\u{3000}Dx12"), Some(Backend::Wgpu));
    assert_eq!(Backend::parse("vulkan"), Some(Backend::Wgpu));
    assert_eq!(Backend::parse("metal"), None);
    assert_eq!(Backend::parse(""), None);
    assert_eq!(Backend::parse("g l"), None);
}

#[test]
fn each_renderer_falls_back_to_the_other() {
    assert_eq!(Backend::Glow.fallback(), Backend::Wgpu);
    assert_eq!(Backend::Wgpu.fallback(), Backend::Glow);
    assert_eq!(Backend::Glow.as_str(), "glow");
    assert_eq!(Backend::Wgpu.as_str(), "wgpu");
}

#[test]
fn the_crash_log_names_the_renderer() {
    assert_eq!(active_backend(0), "none");
    assert_eq!(active_backend(backend_code(Backend::Glow)), "glow");
    assert_eq!(active_backend(backend_code(Backend::Wgpu)), "wgpu");
}

#[test]
fn exports_keep_the_published_aspect_when_asked() {
    assert_eq!(export_height(true, 720, 1_110), 1_110);
    assert_eq!(export_height(false, 720, 1_110), 720);
}

#[test]
fn export_names_are_safe() {
    assert_eq!(sanitize_for_filename("Sol: 14:22"), "Sol--14-22");
}

#[test]
fn exports_are_named_by_place_then_time() {
    assert_eq!(
        ed_compass::ui::export_file_name(Some("Col 285 Sector"), "33110813T142207Z", false),
        "Col-285-Sector-33110813T142207Z-raw.png"
    );
    assert_eq!(
        ed_compass::ui::export_file_name(None, "T", true),
        "unknown-system-T-excess.png"
    );
}
