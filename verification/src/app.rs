//! The application runtime's decisions: what the status indicator reads, when
//! a reconnect may keep its history, which detector edges keep audio, and
//! which queued captures are ready to write.
//!
//! Deliberately free of I/O. The runtime that owns the capture thread, the
//! analysis engine and the disk reports each event here and carries out the
//! action that comes back, so the headless mode and the window share one set
//! of rules. Times are nanoseconds on a monotonic clock.

use vstd::prelude::*;

use crate::audio::capture::CaptureHealth;
use crate::capture_writer::elapsed;

verus! {

/// What the recordings and exports are costing, for the control panel.
#[derive(Debug, Clone, Copy, PartialEq, Eq, Structural)]
pub struct DiskUsage {
    pub capture_bytes: u64,
    pub capture_budget: u64,
    pub export_bytes: u64,
    pub export_budget: u64,
    /// Observations held, including those whose audio has been evicted. This
    /// is the number that only ever goes up.
    pub records: usize,
}

impl Default for DiskUsage {
    fn default() -> (d: Self)
        ensures
            d == (DiskUsage {
                capture_bytes: 0,
                capture_budget: 0,
                export_bytes: 0,
                export_budget: 0,
                records: 0,
            }),
    {
        DiskUsage { capture_bytes: 0, capture_budget: 0, export_bytes: 0, export_budget: 0, records: 0 }
    }
}

/// Why the status indicator reads what it does.
#[derive(Debug, Clone, Copy, PartialEq, Eq, Structural)]
pub enum Status {
    Starting,
    Warming,
    Capturing,
    NoSignal,
    Anomaly,
    DeviceLost,
}

impl Status {
    pub open spec fn spec_label(self) -> &'static str {
        match self {
            Status::Starting => "● STARTING",
            Status::Warming => "● LEARNING BACKGROUND",
            Status::Capturing => "● CAPTURING",
            Status::NoSignal => "● NO SIGNAL",
            Status::Anomaly => "● ANOMALY",
            Status::DeviceLost => "● DEVICE LOST",
        }
    }

    pub fn label(self) -> (s: &'static str)
        ensures
            s == self.spec_label(),
    {
        match self {
            Status::Starting => "● STARTING",
            Status::Warming => "● LEARNING BACKGROUND",
            Status::Capturing => "● CAPTURING",
            Status::NoSignal => "● NO SIGNAL",
            Status::Anomaly => "● ANOMALY",
            Status::DeviceLost => "● DEVICE LOST",
        }
    }
}

/// Which detector's rising edge asked for the recent audio to be kept.
#[derive(Debug, Clone, Copy, PartialEq, Eq, Structural)]
pub enum CaptureReason {
    Landscape,
    Keying,
    Structure,
}

impl CaptureReason {
    pub open spec fn spec_as_str(self) -> &'static str {
        match self {
            CaptureReason::Landscape => "landscape",
            CaptureReason::Keying => "keying",
            CaptureReason::Structure => "structure",
        }
    }

    /// The reason as the sidecar and the file name spell it.
    pub fn as_str(self) -> (s: &'static str)
        ensures
            s == self.spec_as_str(),
    {
        match self {
            CaptureReason::Landscape => "landscape",
            CaptureReason::Keying => "keying",
            CaptureReason::Structure => "structure",
        }
    }
}

/// What to do with the analysis when the stream announces its format.
#[derive(Debug, Clone, Copy, PartialEq, Eq, Structural)]
pub enum FormatAction {
    /// The stream came back in the same shape soon enough: keep the history,
    /// inserting the outage as a gap of this many nanoseconds.
    KeepWithGap(u64),
    /// Build a fresh analysis engine for this format.
    Restart,
}

/// The longest outage a same-format reconnect may bridge while keeping its
/// history.
pub const MAX_CONTINUOUS_RECONNECT_NANOS: u64 = 30_000_000_000;

/// How often an absent device is looked for.
pub const DEVICE_PROBE_NANOS: u64 = 2_000_000_000;

/// How long the anomaly status lasts after an anomaly, in seconds of audio.
pub const ANOMALY_HOLD_SECONDS: u64 = 10;

/// How long a disk usage reading stays fresh.
pub const DISK_USAGE_REFRESH_NANOS: u64 = 5_000_000_000;

/// Capture messages taken in one pump, at most. A producer faster than the
/// consumer (a file replayed at full speed, a device catching up after a
/// stall) refills the channel quicker than it drains, so an unbounded drain
/// would never return.
pub const MAX_MESSAGES_PER_PUMP: usize = 512;

/// Whether a pump that has already taken `taken` messages may take another.
pub fn may_take_message(taken: usize) -> (more: bool)
    ensures
        more == (taken < MAX_MESSAGES_PER_PUMP),
{
    taken < MAX_MESSAGES_PER_PUMP
}

/// What the engine and the game read at the end of a pump, once the channel
/// has been drained, and when.
#[derive(Debug, Clone, Copy)]
pub struct PumpReadings {
    /// The detectors' present flags.
    pub keying: bool,
    pub structure: bool,
    pub landscape: bool,
    /// Whether the game is playing music.
    pub music_playing: bool,
    /// Whether the background model has settled.
    pub warm: bool,
    /// Frames the ring has taken.
    pub total_frames: u64,
    pub sample_rate: u32,
    /// Whether the input is silent.
    pub silent: bool,
    pub now: u64,
}

/// What the end of a pump decided.
#[derive(Debug, Clone, Copy)]
pub struct PumpEnd {
    /// Why to keep the recent audio, if a detector rose.
    pub capture: Option<CaptureReason>,
    /// Whether to look for a device now.
    pub probe: bool,
}

/// The runtime's decision state.
#[derive(Debug, Clone, PartialEq)]
pub struct AppState {
    pub status: Status,
    pub error: Option<String>,
    /// Analysis suspended. Capture keeps running so the stream stays open, but
    /// nothing is fed to the engine.
    pub paused: bool,
    /// Watch for an output device and attach to it when one appears. Live
    /// capture only: a file or synthetic source has no device to lose.
    pub reconnect: bool,
    /// Whether an analysis engine exists for the current stream.
    pub engine_running: bool,
    /// Frame at which the most recent anomaly was queued.
    pub last_anomaly_frame: u64,
    /// When a live stream disappeared.
    pub device_lost_at: Option<u64>,
    pub last_device_probe: Option<u64>,
    pub capture_health: Option<CaptureHealth>,
    /// Whether each primary detector is enabled.
    pub detect_keying: bool,
    pub detect_structure: bool,
    /// Whether each primary detector currently reports present.
    pub keying_present: bool,
    pub structure_present: bool,
    /// Keying is firing, but the game is playing music — so it may be the
    /// music.
    pub keying_suspect: bool,
    /// The period matches the Landscape Signal.
    pub landscape_present: bool,
    /// The name of the device being captured, as the window shows it.
    pub device_label: String,
    /// Detections recorded in the event list, captured or not.
    pub events_recorded: u64,
}

/// `old` with its first value kept: the time an outage began is not moved by
/// later reports of the same outage.
pub open spec fn first_of(old: Option<u64>, now: u64) -> Option<u64> {
    match old {
        Some(t) => Some(t),
        None => Some(now),
    }
}

/// The status for a running stream, from the engine's readings.
pub open spec fn spec_status(
    warm: bool,
    last_anomaly_frame: u64,
    total_frames: u64,
    sample_rate: u32,
    silent: bool,
) -> Status {
    let recent = if total_frames >= last_anomaly_frame {
        total_frames - last_anomaly_frame
    } else {
        0
    };
    if !warm {
        Status::Warming
    } else if last_anomaly_frame > 0 && recent < ANOMALY_HOLD_SECONDS * sample_rate {
        Status::Anomaly
    } else if silent {
        Status::NoSignal
    } else {
        Status::Capturing
    }
}

/// The reason to keep audio on this round of detector readings: a rising
/// edge, with the Landscape Signal first, then keying, then structure.
pub open spec fn spec_capture_reason(
    was_keying: bool,
    was_structure: bool,
    was_landscape: bool,
    keying: bool,
    structure: bool,
    landscape: bool,
) -> Option<CaptureReason> {
    if landscape && !was_landscape {
        Some(CaptureReason::Landscape)
    } else if keying && !was_keying {
        Some(CaptureReason::Keying)
    } else if structure && !was_structure {
        Some(CaptureReason::Structure)
    } else {
        None
    }
}

/// How long the stream was gone when it announces its format at `now`.
pub open spec fn outage(s: AppState, now: u64) -> Option<int> {
    match s.device_lost_at {
        Some(lost) => Some(elapsed(now, lost)),
        None => None,
    }
}

/// Whether the analysis survives the stream announcing its format at `now`:
/// same shape, an engine to keep, and an outage short enough to bridge.
pub open spec fn keeps_history(s: AppState, same_format: bool, now: u64) -> bool {
    same_format && s.engine_running && (outage(s, now) matches Some(d) && d
        <= MAX_CONTINUOUS_RECONNECT_NANOS)
}

/// What to do with the analysis when the stream announces its format.
pub open spec fn format_action(s: AppState, same_format: bool, now: u64) -> FormatAction {
    if keeps_history(s, same_format, now) {
        FormatAction::KeepWithGap(outage(s, now).unwrap() as u64)
    } else {
        FormatAction::Restart
    }
}

/// The state after the stream announced its format.
pub open spec fn after_format(s: AppState, same_format: bool, now: u64) -> AppState {
    if keeps_history(s, same_format, now) {
        AppState { device_lost_at: None, ..s }
    } else {
        AppState { device_lost_at: None, engine_running: true, status: Status::Warming, ..s }
    }
}

/// The state after capture failed at `now` with `message`.
pub open spec fn after_error(s: AppState, message: String, now: u64) -> AppState {
    AppState {
        error: Some(message),
        status: Status::DeviceLost,
        device_lost_at: first_of(s.device_lost_at, now),
        ..s
    }
}

/// The state after capture stopped at `now`.
pub open spec fn after_stopped(s: AppState, now: u64) -> AppState {
    AppState {
        status: if s.error is None {
            Status::DeviceLost
        } else {
            s.status
        },
        device_lost_at: first_of(s.device_lost_at, now),
        ..s
    }
}

/// The state after the status is recomputed from the engine's readings.
pub open spec fn after_status_update(
    s: AppState,
    warm: bool,
    total_frames: u64,
    sample_rate: u32,
    silent: bool,
) -> AppState {
    AppState {
        status: if s.status == Status::DeviceLost {
            Status::DeviceLost
        } else if !s.engine_running {
            Status::Starting
        } else {
            spec_status(warm, s.last_anomaly_frame, total_frames, sample_rate, silent)
        },
        ..s
    }
}

/// The state after a round of detector readings.
pub open spec fn after_detectors(
    s: AppState,
    keying: bool,
    structure: bool,
    landscape: bool,
    music_playing: bool,
) -> AppState {
    if s.engine_running {
        AppState {
            keying_suspect: keying && music_playing,
            landscape_present: landscape,
            keying_present: keying,
            structure_present: structure,
            ..s
        }
    } else {
        s
    }
}

/// Whether to look for a device at `now`: only when watching for one, only
/// while it is lost, and not within two seconds of the last look.
pub open spec fn probe_is_due(s: AppState, now: u64) -> bool {
    s.reconnect && s.status == Status::DeviceLost && (s.last_device_probe matches Some(t)
        ==> elapsed(now, t) >= DEVICE_PROBE_NANOS)
}

/// The state after deciding whether to look for a device at `now`: a look
/// is recorded, and nothing else changes.
pub open spec fn after_probe(s: AppState, now: u64) -> AppState {
    AppState {
        last_device_probe: if probe_is_due(s, now) {
            Some(now)
        } else {
            s.last_device_probe
        },
        ..s
    }
}

/// The state after the end of a pump: the detectors are read, the status is
/// recomputed, and a device is looked for if one is due.
pub open spec fn after_pump_end(s: AppState, r: PumpReadings) -> AppState {
    after_probe(
        after_status_update(
            after_detectors(s, r.keying, r.structure, r.landscape, r.music_playing),
            r.warm,
            r.total_frames,
            r.sample_rate,
            r.silent,
        ),
        r.now,
    )
}

/// The state after a run of pumps that each found the channel empty and no
/// device to attach, ending with the readings in `pumps`, oldest first.
pub open spec fn after_quiet_pumps(s: AppState, pumps: Seq<PumpReadings>) -> AppState
    decreases pumps.len(),
{
    if pumps.len() == 0 {
        s
    } else {
        after_pump_end(after_quiet_pumps(s, pumps.drop_last()), pumps.last())
    }
}

/// The reason a round of detector readings gives to keep the recent audio.
pub open spec fn detector_capture(
    s: AppState,
    keying: bool,
    structure: bool,
    landscape: bool,
) -> Option<CaptureReason> {
    if s.engine_running {
        spec_capture_reason(
            s.keying_present,
            s.structure_present,
            s.landscape_present,
            keying,
            structure,
            landscape,
        )
    } else {
        None
    }
}

impl AppState {
    /// A runtime whose capture has just been started.
    pub open spec fn starting(detect_keying: bool, detect_structure: bool, device_label: String) -> AppState {
        AppState {
            status: Status::Starting,
            error: None,
            paused: false,
            reconnect: false,
            engine_running: false,
            last_anomaly_frame: 0,
            device_lost_at: None,
            last_device_probe: None,
            capture_health: None,
            detect_keying,
            detect_structure,
            keying_present: false,
            structure_present: false,
            keying_suspect: false,
            landscape_present: false,
            device_label,
            events_recorded: 0,
        }
    }

    /// A runtime capturing from the device called `device_label`.
    pub fn new(detect_keying: bool, detect_structure: bool, device_label: String) -> (a: Self)
        ensures
            a == AppState::starting(detect_keying, detect_structure, device_label),
    {
        AppState {
            status: Status::Starting,
            error: None,
            paused: false,
            reconnect: false,
            engine_running: false,
            last_anomaly_frame: 0,
            device_lost_at: None,
            last_device_probe: None,
            capture_health: None,
            detect_keying,
            detect_structure,
            keying_present: false,
            structure_present: false,
            keying_suspect: false,
            landscape_present: false,
            device_label,
            events_recorded: 0,
        }
    }

    /// Start with no device, waiting for one to appear, carrying the reason
    /// where the window can show it. The device is labelled as absent.
    pub fn waiting_for_device(detect_keying: bool, detect_structure: bool, why: String) -> (a: Self)
        ensures
            a.device_label@ == "no audio device"@,
            a == (AppState {
                reconnect: true,
                status: Status::DeviceLost,
                error: Some(why),
                ..AppState::starting(detect_keying, detect_structure, a.device_label)
            }),
    {
        let mut a = AppState::new(detect_keying, detect_structure, String::from_str("no audio device"));
        a.reconnect = true;
        a.status = Status::DeviceLost;
        a.error = Some(why);
        a
    }

    /// Watch for a device if this one is ever lost. Live capture only.
    pub fn reconnect_on_device_loss(&mut self)
        ensures
            *final(self) == (AppState { reconnect: true, ..*old(self) }),
    {
        self.reconnect = true;
    }

    pub fn status(&self) -> (s: Status)
        ensures
            s == self.status,
    {
        self.status
    }

    pub fn error(&self) -> (e: Option<&str>)
        ensures
            e is Some <==> self.error is Some,
            e matches Some(s) ==> s@ == self.error.unwrap()@,
    {
        match &self.error {
            Some(s) => Some(s.as_str()),
            None => None,
        }
    }

    /// The name of the device being captured.
    pub fn device_label(&self) -> (label: &str)
        ensures
            label@ == self.device_label@,
    {
        self.device_label.as_str()
    }

    /// How many detections the event list holds.
    pub fn events_recorded(&self) -> (n: u64)
        ensures
            n == self.events_recorded,
    {
        self.events_recorded
    }

    /// A detection entered the event list, whether or not its audio was kept.
    pub fn record_event(&mut self)
        requires
            old(self).events_recorded < u64::MAX,
        ensures
            *final(self) == (AppState { events_recorded: (old(self).events_recorded + 1) as u64, ..*old(self) }),
    {
        self.events_recorded = self.events_recorded + 1;
    }

    pub fn is_paused(&self) -> (p: bool)
        ensures
            p == self.paused,
    {
        self.paused
    }

    /// Suspend or resume analysis. The stream stays open either way, so
    /// resuming does not re-negotiate the device or restart the warm-up.
    pub fn set_paused(&mut self, paused: bool)
        ensures
            *final(self) == (AppState { paused, ..*old(self) }),
    {
        self.paused = paused;
    }

    /// Whether each primary detector currently reports something present.
    pub fn detections_present(&self) -> (p: (bool, bool))
        ensures
            p == (self.keying_present, self.structure_present),
    {
        (self.keying_present, self.structure_present)
    }

    /// True when keying is firing while music plays, so the reading is
    /// suspect.
    pub fn keying_suspect(&self) -> (s: bool)
        ensures
            s == self.keying_suspect,
    {
        self.keying_suspect
    }

    /// The period matches the Landscape Signal.
    pub fn landscape_present(&self) -> (p: bool)
        ensures
            p == self.landscape_present,
    {
        self.landscape_present
    }

    /// Toggle either primary detector. A detector switched off stops
    /// reporting present at once.
    pub fn set_detectors(&mut self, keying: bool, structure: bool)
        ensures
            *final(self) == (AppState {
                detect_keying: keying,
                detect_structure: structure,
                keying_present: old(self).keying_present && keying,
                structure_present: old(self).structure_present && structure,
                ..*old(self)
            }),
    {
        self.detect_keying = keying;
        self.detect_structure = structure;
        if !keying {
            self.keying_present = false;
        }
        if !structure {
            self.structure_present = false;
        }
    }

    /// The engine was rebuilt for the last known format. A format means the
    /// endpoint is delivering again, so any recorded failure is history.
    pub fn engine_rebuilt(&mut self)
        ensures
            *final(self) == (AppState {
                engine_running: true,
                error: None,
                status: Status::Warming,
                ..*old(self)
            }),
    {
        self.engine_running = true;
        self.error = None;
        self.status = Status::Warming;
    }

    /// The stream announced its format at `now`. `same_format` says whether
    /// it equals the format the current analysis was built for.
    pub fn on_format(&mut self, same_format: bool, now: u64) -> (action: FormatAction)
        ensures
            action == format_action(*old(self), same_format, now),
            *final(self) == after_format(*old(self), same_format, now),
    {
        let outage: Option<u64> = match self.device_lost_at {
            Some(lost) => Some(if now >= lost { now - lost } else { 0 }),
            None => None,
        };
        self.device_lost_at = None;
        if same_format && self.engine_running {
            if let Some(d) = outage {
                if d <= MAX_CONTINUOUS_RECONNECT_NANOS {
                    return FormatAction::KeepWithGap(d);
                }
            }
        }
        self.engine_running = true;
        self.status = Status::Warming;
        FormatAction::Restart
    }

    /// Whether a block of audio goes to the analysis. While paused it is
    /// dropped; the stream stays open and only analysis is idle.
    pub fn accepts_audio(&self) -> (feed: bool)
        ensures
            feed == (!self.paused && self.engine_running),
    {
        !self.paused && self.engine_running
    }

    /// Capture reported the counters.
    pub fn on_health(&mut self, health: CaptureHealth)
        ensures
            *final(self) == (AppState { capture_health: Some(health), ..*old(self) }),
    {
        self.capture_health = Some(health);
    }

    /// Capture failed at `now`; it will send nothing further.
    pub fn on_error(&mut self, message: String, now: u64)
        ensures
            *final(self) == after_error(*old(self), message, now),
    {
        self.error = Some(message);
        self.status = Status::DeviceLost;
        if self.device_lost_at.is_none() {
            self.device_lost_at = Some(now);
        }
    }

    /// Capture stopped at `now`. Without an error, the device is lost; with
    /// one, the error already said so.
    pub fn on_stopped(&mut self, now: u64)
        ensures
            *final(self) == after_stopped(*old(self), now),
    {
        if self.error.is_none() {
            self.status = Status::DeviceLost;
        }
        if self.device_lost_at.is_none() {
            self.device_lost_at = Some(now);
        }
    }

    /// The capture channel closed at `now`.
    pub fn on_disconnected(&mut self, now: u64)
        ensures
            *final(self) == (AppState {
                status: Status::DeviceLost,
                device_lost_at: first_of(old(self).device_lost_at, now),
                ..*old(self)
            }),
    {
        self.status = Status::DeviceLost;
        if self.device_lost_at.is_none() {
            self.device_lost_at = Some(now);
        }
    }

    /// A detection was queued when the ring held `total_frames` frames.
    pub fn note_anomaly(&mut self, total_frames: u64)
        ensures
            *final(self) == (AppState { last_anomaly_frame: total_frames, ..*old(self) }),
    {
        self.last_anomaly_frame = total_frames;
    }

    /// Recompute the status from the engine's readings: whether the
    /// background model has settled, how many frames the ring has taken, the
    /// sample rate, and whether the input is silent. A lost device stays lost
    /// until something reattaches it.
    pub fn update_status(&mut self, warm: bool, total_frames: u64, sample_rate: u32, silent: bool)
        ensures
            *final(self) == after_status_update(*old(self), warm, total_frames, sample_rate, silent),
    {
        if self.status == Status::DeviceLost {
            return;
        }
        if !self.engine_running {
            self.status = Status::Starting;
            return;
        }
        let recent: u64 = total_frames.saturating_sub(self.last_anomaly_frame);
        let hold: u64 = ANOMALY_HOLD_SECONDS * (sample_rate as u64);
        self.status = if !warm {
            Status::Warming
        } else if self.last_anomaly_frame > 0 && recent < hold {
            Status::Anomaly
        } else if silent {
            Status::NoSignal
        } else {
            Status::Capturing
        };
    }

    /// Take this round of detector readings. Returns the reason to keep the
    /// recent audio, on a rising edge. Keying heard while music plays is
    /// marked suspect. Without an engine there is nothing to read.
    pub fn check_detectors(&mut self, keying: bool, structure: bool, landscape: bool, music_playing: bool) -> (reason: Option<CaptureReason>)
        ensures
            reason == detector_capture(*old(self), keying, structure, landscape),
            *final(self) == after_detectors(*old(self), keying, structure, landscape, music_playing),
    {
        if !self.engine_running {
            return None;
        }
        self.keying_suspect = keying && music_playing;
        let was_landscape = self.landscape_present;
        self.landscape_present = landscape;
        let rising_keying = keying && !self.keying_present;
        let rising_structure = structure && !self.structure_present;
        let rising_landscape = landscape && !was_landscape;
        let reason = if rising_landscape {
            Some(CaptureReason::Landscape)
        } else if rising_keying {
            Some(CaptureReason::Keying)
        } else if rising_structure {
            Some(CaptureReason::Structure)
        } else {
            None
        };
        self.keying_present = keying;
        self.structure_present = structure;
        reason
    }

    /// Whether to look for a device at `now`: only when watching for one,
    /// only while it is lost, and not more often than every two seconds.
    pub fn probe_due(&mut self, now: u64) -> (due: bool)
        ensures
            due == probe_is_due(*old(self), now),
            *final(self) == after_probe(*old(self), now),
    {
        if !self.reconnect || self.status != Status::DeviceLost {
            return false;
        }
        if let Some(t) = self.last_device_probe {
            let since: u64 = if now >= t { now - t } else { 0 };
            if since < DEVICE_PROBE_NANOS {
                return false;
            }
        }
        self.last_device_probe = Some(now);
        true
    }

    /// The end of a pump, once the channel has been drained: read the
    /// detectors, recompute the status, and decide whether to look for a
    /// device.
    pub fn finish_pump(&mut self, r: PumpReadings) -> (end: PumpEnd)
        ensures
            end.capture == detector_capture(*old(self), r.keying, r.structure, r.landscape),
            end.probe == probe_is_due(
                after_status_update(
                    after_detectors(*old(self), r.keying, r.structure, r.landscape, r.music_playing),
                    r.warm,
                    r.total_frames,
                    r.sample_rate,
                    r.silent,
                ),
                r.now,
            ),
            *final(self) == after_pump_end(*old(self), r),
    {
        let capture = self.check_detectors(r.keying, r.structure, r.landscape, r.music_playing);
        self.update_status(r.warm, r.total_frames, r.sample_rate, r.silent);
        let probe = self.probe_due(r.now);
        PumpEnd { capture, probe }
    }

    /// A device appeared and capture started on it. The engine is kept
    /// provisionally: the format message decides whether it still fits.
    pub fn on_attached(&mut self, device_label: String)
        ensures
            *final(self) == (AppState {
                error: None,
                status: Status::Starting,
                capture_health: None,
                device_label,
                ..*old(self)
            }),
    {
        self.device_label = device_label;
        self.error = None;
        self.status = Status::Starting;
        self.capture_health = None;
    }

    /// Capture moved to another endpoint. The analysis is discarded: a new
    /// endpoint can have another sample rate and channel layout.
    pub fn on_switched_device(&mut self, device_label: String)
        ensures
            *final(self) == (AppState {
                engine_running: false,
                error: None,
                status: Status::Starting,
                last_anomaly_frame: 0,
                capture_health: None,
                device_lost_at: None,
                device_label,
                ..*old(self)
            }),
    {
        self.device_label = device_label;
        self.engine_running = false;
        self.error = None;
        self.status = Status::Starting;
        self.last_anomaly_frame = 0;
        self.capture_health = None;
        self.device_lost_at = None;
    }
}

/// A capture error is surfaced rather than swallowed: once capture fails,
/// the stop that follows and every later status update leave the device
/// lost and the failure's message in place.
pub proof fn law_a_capture_error_stays_visible(
    s: AppState,
    message: String,
    failed_at: u64,
    stopped_at: u64,
    warm: bool,
    total_frames: u64,
    sample_rate: u32,
    silent: bool,
)
    ensures
        ({
            let after = after_status_update(
                after_stopped(after_error(s, message, failed_at), stopped_at),
                warm,
                total_frames,
                sample_rate,
                silent,
            );
            &&& after.status == Status::DeviceLost
            &&& after.error == Some(message)
            &&& after.device_lost_at == first_of(s.device_lost_at, failed_at)
        }),
{
}

/// A short same-format reconnect keeps the analysis and marks the outage as
/// a gap of exactly its length; a long one, or a new shape, starts afresh.
pub proof fn law_a_short_reconnect_keeps_history(s: AppState, message: String, lost_at: u64, now: u64)
    requires
        s.engine_running,
        s.device_lost_at is None,
        lost_at <= now,
    ensures
        now - lost_at <= MAX_CONTINUOUS_RECONNECT_NANOS ==> format_action(
            after_error(s, message, lost_at),
            true,
            now,
        ) == FormatAction::KeepWithGap((now - lost_at) as u64),
        now - lost_at > MAX_CONTINUOUS_RECONNECT_NANOS ==> format_action(
            after_error(s, message, lost_at),
            true,
            now,
        ) == FormatAction::Restart,
        format_action(after_error(s, message, lost_at), false, now) == FormatAction::Restart,
        after_format(after_error(s, message, lost_at), true, now).engine_running,
{
}

/// A lost device stays lost: the engine's readings cannot bring the status
/// back; only reattaching or a new format can.
pub proof fn law_a_lost_device_stays_lost(
    s: AppState,
    warm: bool,
    total_frames: u64,
    sample_rate: u32,
    silent: bool,
)
    requires
        s.status == Status::DeviceLost,
    ensures
        after_status_update(s, warm, total_frames, sample_rate, silent).status
            == Status::DeviceLost,
{
}

/// A runtime waiting for a device keeps waiting while none appears: however
/// many pumps find the channel empty and no device to attach, the device
/// stays lost under the same label, the reason stays where the window shows
/// it, no engine runs, no event is recorded, and no pump keeps any audio.
pub proof fn law_waiting_without_a_device_changes_nothing(s: AppState, pumps: Seq<PumpReadings>)
    requires
        s.status == Status::DeviceLost,
        !s.engine_running,
    ensures
        after_quiet_pumps(s, pumps).status == Status::DeviceLost,
        after_quiet_pumps(s, pumps).error == s.error,
        !after_quiet_pumps(s, pumps).engine_running,
        after_quiet_pumps(s, pumps).reconnect == s.reconnect,
        after_quiet_pumps(s, pumps).device_label == s.device_label,
        after_quiet_pumps(s, pumps).events_recorded == s.events_recorded,
        forall|i: int|
            0 <= i < pumps.len() ==> (#[trigger] detector_capture(
                after_quiet_pumps(s, pumps.take(i)),
                pumps[i].keying,
                pumps[i].structure,
                pumps[i].landscape,
            )) is None,
    decreases pumps.len(),
{
    if pumps.len() > 0 {
        let earlier = pumps.drop_last();
        law_waiting_without_a_device_changes_nothing(s, earlier);
        assert forall|i: int| 0 <= i < pumps.len() implies (#[trigger] detector_capture(
            after_quiet_pumps(s, pumps.take(i)),
            pumps[i].keying,
            pumps[i].structure,
            pumps[i].landscape,
        )) is None by {
            if i < pumps.len() - 1 {
                assert(pumps.take(i) =~= earlier.take(i));
                assert(pumps[i] == earlier[i]);
            } else {
                assert(pumps.take(i) =~= earlier);
            }
        }
    }
}

/// Audio is kept on the rising edge only: the same readings taken twice in a
/// row keep nothing the second time.
pub proof fn law_steady_detections_keep_audio_once(
    s: AppState,
    keying: bool,
    structure: bool,
    landscape: bool,
    music_playing: bool,
)
    ensures
        detector_capture(
            after_detectors(s, keying, structure, landscape, music_playing),
            keying,
            structure,
            landscape,
        ) is None,
{
}

/// A warmed-up stream with sound and no recent anomaly settles into steady
/// capture, whatever it read before, unless the device is lost.
pub proof fn law_warm_sound_means_capturing(
    s: AppState,
    total_frames: u64,
    sample_rate: u32,
)
    requires
        s.engine_running,
        s.status != Status::DeviceLost,
        s.last_anomaly_frame == 0,
    ensures
        after_status_update(s, true, total_frames, sample_rate, false).status == Status::Capturing,
{
}

/// The status of a running stream follows a fixed precedence: an unsettled
/// background model reads as warming whatever the input sounds like; once
/// settled, an anomaly within the last ten seconds of audio holds the
/// status whatever the input sounds like; only then does silence read as no
/// signal, and sound as steady capture. A lost device stays lost, and a
/// stream without an engine is starting.
pub proof fn law_the_status_follows_its_precedence(
    s: AppState,
    warm: bool,
    total_frames: u64,
    sample_rate: u32,
    silent: bool,
)
    ensures
        ({
            let status = after_status_update(s, warm, total_frames, sample_rate, silent).status;
            let f = s.last_anomaly_frame;
            let held = f > 0 && total_frames >= f && total_frames - f < 10 * sample_rate;
            let released = f == 0 || (total_frames >= f && total_frames - f >= 10 * sample_rate);
            &&& s.status == Status::DeviceLost ==> status == Status::DeviceLost
            &&& s.status != Status::DeviceLost && !s.engine_running ==> status == Status::Starting
            &&& s.status != Status::DeviceLost && s.engine_running ==> {
                &&& !warm ==> status == Status::Warming
                &&& warm && held ==> status == Status::Anomaly
                &&& warm && released && silent ==> status == Status::NoSignal
                &&& warm && released && !silent ==> status == Status::Capturing
                &&& status == Status::NoSignal ==> warm && silent && !held
                &&& status == Status::Capturing ==> warm && !silent && !held
                &&& status == Status::Warming ==> !warm
            }
        }),
{
}

/// A round of detector readings keeps audio exactly when some detector
/// rises, from absent to present, while an engine runs; the reason names a
/// detector that rose, the Landscape Signal first, then keying, then
/// structure, whatever the detectors that stay on or off are doing.
pub proof fn law_a_rising_detector_keeps_audio(
    s: AppState,
    keying: bool,
    structure: bool,
    landscape: bool,
)
    ensures
        ({
            let reason = detector_capture(s, keying, structure, landscape);
            let landscape_rose = landscape && !s.landscape_present;
            let keying_rose = keying && !s.keying_present;
            let structure_rose = structure && !s.structure_present;
            &&& !s.engine_running ==> reason is None
            &&& s.engine_running ==> (reason is None <==> !(landscape_rose || keying_rose
                || structure_rose))
            &&& reason == Some(CaptureReason::Landscape) ==> landscape_rose
            &&& reason == Some(CaptureReason::Keying) ==> keying_rose && !landscape_rose
            &&& reason == Some(CaptureReason::Structure) ==> structure_rose && !landscape_rose
                && !keying_rose
            &&& s.engine_running && structure_rose && !landscape_rose && !keying_rose ==> reason
                == Some(CaptureReason::Structure)
            &&& s.engine_running && keying_rose && !landscape_rose ==> reason == Some(
                CaptureReason::Keying,
            )
            &&& s.engine_running && landscape_rose ==> reason == Some(CaptureReason::Landscape)
        }),
{
}

/// What a console run does after a pump.
#[derive(Debug, Clone, Copy, PartialEq, Eq, Structural)]
pub enum HeadlessStep {
    /// Keep pumping.
    Continue,
    /// Capture stopped with an error: exit with it.
    Failed,
    /// The input ended cleanly.
    Finished,
    /// The requested duration has passed.
    LimitReached,
}

/// The console run's decision after a pump: a lost device ends the run, with
/// the error when there is one; otherwise the run goes on until its time
/// limit, when it has one.
pub fn headless_step(status: Status, error_present: bool, limit_reached: bool) -> (step: HeadlessStep)
    ensures
        step == (if status == Status::DeviceLost {
            if error_present {
                HeadlessStep::Failed
            } else {
                HeadlessStep::Finished
            }
        } else if limit_reached {
            HeadlessStep::LimitReached
        } else {
            HeadlessStep::Continue
        }),
{
    if status == Status::DeviceLost {
        if error_present {
            HeadlessStep::Failed
        } else {
            HeadlessStep::Finished
        }
    } else if limit_reached {
        HeadlessStep::LimitReached
    } else {
        HeadlessStep::Continue
    }
}

/// How many of `flags` are set.
pub open spec fn count_set(flags: Seq<bool>) -> nat
    decreases flags.len(),
{
    if flags.len() == 0 {
        0
    } else {
        count_set(flags.drop_last()) + if flags.last() {
            1nat
        } else {
            0nat
        }
    }
}

/// The one option chosen among `requested`: none, the position of the only
/// one set, or, when several are set, how many.
pub fn single_choice(requested: &[bool]) -> (r: Result<Option<usize>, usize>)
    ensures
        count_set(requested@) == 0 ==> r == Ok::<Option<usize>, usize>(None),
        count_set(requested@) == 1 ==> (r matches Ok(Some(k)) && k < requested@.len()
            && requested@[k as int]),
        count_set(requested@) > 1 ==> r == Err::<Option<usize>, usize>(count_set(requested@) as usize),
{
    let mut count: usize = 0;
    let mut chosen: usize = 0;
    let mut i: usize = 0;
    while i < requested.len()
        invariant
            i <= requested@.len(),
            count == count_set(requested@.take(i as int)),
            count <= i,
            count > 0 ==> chosen < i && requested@[chosen as int],
        decreases requested.len() - i,
    {
        assert(requested@.take(i + 1).drop_last() =~= requested@.take(i as int));
        if requested[i] {
            if count == 0 {
                chosen = i;
            }
            count = count + 1;
        }
        i = i + 1;
    }
    assert(requested@.take(requested.len() as int) =~= requested@);
    if count == 0 {
        Ok(None)
    } else if count == 1 {
        Ok(Some(chosen))
    } else {
        Err(count)
    }
}

/// Whether switching to a device means reopening capture: not when it is the
/// device already attached and its stream is still running.
pub fn needs_switch(current_id: &str, requested_id: &str, capture_running: bool) -> (switch: bool)
    ensures
        switch == !(current_id@ == requested_id@ && capture_running),
{
    !(crate::text::str_eq(current_id, requested_id) && capture_running)
}

/// The frames a detection's capture covers: `pre_roll` frames before its
/// start (never before the first frame) to `post_roll` after its end. The
/// capture is ready once the ring has reached the end.
pub fn capture_span(start_sample: u64, end_sample: u64, pre_roll: u64, post_roll: u64) -> (span: (u64, u64))
    requires
        end_sample + post_roll <= u64::MAX,
    ensures
        span.0 == (if start_sample >= pre_roll {
            start_sample - pre_roll
        } else {
            0
        }),
        span.1 == end_sample + post_roll,
{
    (start_sample.saturating_sub(pre_roll), end_sample + post_roll)
}

/// The part of a requested span still resident in a ring that holds frames
/// `oldest .. total`, or `None` when nothing of it is left. The pre-roll may
/// already have been evicted if the ring is short relative to the roll.
pub fn resident_span(start: u64, end: u64, oldest: u64, total: u64) -> (span: Option<(u64, u64)>)
    ensures
        ({
            let s = if start >= oldest {
                start
            } else {
                oldest
            };
            let e = if end <= total {
                end
            } else {
                total
            };
            if e <= s {
                span is None
            } else {
                span == Some((s, e))
            }
        }),
{
    let s = if start >= oldest {
        start
    } else {
        oldest
    };
    let e = if end <= total {
        end
    } else {
        total
    };
    if e <= s {
        None
    } else {
        Some((s, e))
    }
}

/// The positions, in order, of the queued captures whose post-roll has
/// arrived: those ready at or before `available` frames.
pub fn ready_captures(ready_at: &[u64], available: u64) -> (ready: Vec<usize>)
    ensures
        forall|k: int| 0 <= k < ready@.len() ==> ready@[k] < ready_at@.len() && ready_at@[ready@[k] as int] <= available,
        forall|k: int, m: int| 0 <= k < m < ready@.len() ==> ready@[k] < ready@[m],
        forall|i: int| 0 <= i < ready_at@.len() && ready_at@[i] <= available ==> ready@.contains(i as usize),
{
    let mut ready: Vec<usize> = Vec::new();
    let mut i: usize = 0;
    while i < ready_at.len()
        invariant
            i <= ready_at@.len(),
            forall|k: int| 0 <= k < ready@.len() ==> ready@[k] < i && ready_at@[ready@[k] as int] <= available,
            forall|k: int, m: int| 0 <= k < m < ready@.len() ==> ready@[k] < ready@[m],
            forall|j: int| 0 <= j < i && ready_at@[j] <= available ==> ready@.contains(j as usize),
        decreases ready_at@.len() - i,
    {
        if ready_at[i] <= available {
            let ghost before = ready@;
            ready.push(i);
            proof {
                assert forall|j: int| 0 <= j < i + 1 && ready_at@[j] <= available implies ready@.contains(
                    j as usize,
                ) by {
                    if j < i {
                        let k = choose|k: int| 0 <= k < before.len() && before[k] == j as usize;
                        assert(ready@[k] == j as usize);
                    } else {
                        assert(ready@[ready@.len() - 1] == i);
                    }
                }
            }
        }
        i = i + 1;
    }
    ready
}

/// How many frames a keep-recent request takes: what was asked for, but no
/// more than the ring holds. `None` when there is nothing to keep yet.
pub fn frames_to_keep(wanted: usize, held: usize) -> (frames: Option<usize>)
    ensures
        ({
            let n = if wanted <= held {
                wanted
            } else {
                held
            };
            if n == 0 {
                frames is None
            } else {
                frames == Some(n)
            }
        }),
{
    let n = if wanted <= held {
        wanted
    } else {
        held
    };
    if n == 0 {
        None
    } else {
        Some(n)
    }
}

/// Whether a cached disk usage reading taken at `read_at` must be refreshed
/// at `now`. Scanning a directory is too slow to do every frame; `force` is
/// for right after a deliberate clean-up.
pub fn disk_usage_stale(force: bool, read_at: Option<u64>, now: u64) -> (stale: bool)
    ensures
        stale == (force || match read_at {
            Some(t) => elapsed(now, t) >= DISK_USAGE_REFRESH_NANOS,
            None => true,
        }),
{
    if force {
        return true;
    }
    match read_at {
        Some(t) => {
            let since: u64 = if now >= t { now - t } else { 0 };
            since >= DISK_USAGE_REFRESH_NANOS
        },
        None => true,
    }
}

/// Whether a capture written at `written_at` is recent enough at `now` to
/// stand for an export: within `within` nanoseconds.
pub fn capture_is_recent(written_at: u64, now: u64, within: u64) -> (recent: bool)
    ensures
        recent == (elapsed(now, written_at) <= within),
{
    let since: u64 = if now >= written_at { now - written_at } else { 0 };
    since <= within
}

} // verus!
