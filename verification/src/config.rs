//! The settings rules: which combinations of values a configuration may hold,
//! and which rule a bad one breaks first.
//!
//! Settings that are fractional quantities (seconds, hertz, pixels) are
//! compared by the caller, which hands in the outcome of each comparison; the
//! rules on counts, sizes and names, and the order in which every rule is
//! checked, live here.

use vstd::prelude::*;
use vstd::string::StringExecFns;

use crate::audio::device::Platform;
use crate::text::str_eq;

verus! {

/// The default for a setting that is on unless switched off.
pub fn default_true() -> (b: bool)
    ensures
        b,
{
    true
}

/// The renderer a fresh configuration names: wgpu on macOS, glow elsewhere.
pub fn default_renderer(platform: Platform) -> (name: String)
    ensures
        name@ == (if platform == Platform::MacOs {
            "wgpu"@
        } else {
            "glow"@
        }),
{
    if platform == Platform::MacOs {
        String::from_str("wgpu")
    } else {
        String::from_str("glow")
    }
}

/// Whether `n` is a power of two.
pub open spec fn is_power_of_two(n: nat) -> bool
    decreases n,
{
    if n == 1 {
        true
    } else if n < 2 || n % 2 == 1 {
        false
    } else {
        is_power_of_two(n / 2)
    }
}

fn power_of_two(n: usize) -> (r: bool)
    ensures
        r == is_power_of_two(n as nat),
{
    let mut m: usize = n;
    while m >= 2 && m % 2 == 0
        invariant
            is_power_of_two(m as nat) == is_power_of_two(n as nat),
        decreases m,
    {
        m = m / 2;
    }
    m == 1
}

/// The first rule a configuration breaks.
#[derive(Debug, Clone, PartialEq, Eq)]
pub enum ConfigError {
    /// `appearance` is not `system`, `light` or `dark`.
    Appearance,
    /// `fft_size` is below 64.
    FftTooSmall,
    /// `fft_size` is not a power of two.
    FftNotPowerOfTwo(usize),
    /// `hop` is not in `1..=fft_size`.
    HopOutOfRange,
    /// `pcm_ring_seconds` is not positive.
    PcmRingSeconds,
    /// `histogram_bins` is below 2.
    HistogramBins,
    /// The displayed band is not more than an octave wide.
    SpectrogramBand,
    /// The detection band is not well above its floor.
    DetectBand,
    /// `longterm_bands` is below 8.
    LongtermBands,
    /// `longterm_fps` is not positive.
    LongtermFps,
    /// `analysis_update_hz` is not positive.
    AnalysisRate,
    /// `health_window_seconds` is not positive.
    HealthWindow,
    /// The Morse band is empty.
    MorseBand,
    /// `renderer` is neither `glow` nor `wgpu`.
    Renderer(String),
    /// `capture_format` is neither `flac` nor `wav`.
    CaptureFormat(String),
    /// `overlay_x_offset_px` is not a non-negative number.
    OverlayOffset,
    /// The overlay is smaller than 80 by 30.
    OverlaySize,
    /// `overlay_spectrogram_seconds` is not positive.
    OverlaySeconds,
    /// `background_time_constant_seconds` is not positive.
    BackgroundTimeConstant,
    /// `background_max_freeze_seconds` does not exceed the time constant.
    BackgroundFreeze,
    /// `journal_audio_offset_seconds` is not finite.
    JournalOffset,
    /// `journal_correlation_window_seconds` is not a non-negative finite
    /// number.
    JournalWindow,
    /// The ignore band at this position does not have its floor below its
    /// ceiling.
    IgnoreBand(usize),
}

/// What the rules read of a configuration: the counts and names as they
/// are, and for each rule on a fractional quantity, whether it holds.
#[derive(Debug, Clone, PartialEq, Eq)]
pub struct SettingsCheck {
    pub appearance: String,
    pub fft_size: usize,
    pub hop: usize,
    pub histogram_bins: usize,
    pub longterm_bands: usize,
    pub renderer: String,
    pub capture_format: String,
    pub pcm_ring_seconds_positive: bool,
    pub spectrogram_band_wide: bool,
    pub detect_band_wide: bool,
    pub longterm_fps_positive: bool,
    pub analysis_rate_positive: bool,
    pub health_window_positive: bool,
    pub morse_band_ordered: bool,
    pub overlay_offset_valid: bool,
    pub overlay_large_enough: bool,
    pub overlay_seconds_positive: bool,
    pub background_time_constant_positive: bool,
    pub background_freeze_longer: bool,
    pub journal_offset_finite: bool,
    pub journal_window_valid: bool,
    /// Per ignore band, in order: whether its floor is below its ceiling.
    pub ignore_bands_ordered: Vec<bool>,
}

/// The position of the first ignore band that is not ordered, if any.
pub open spec fn first_unordered(bands: Seq<bool>, from: int) -> Option<int>
    decreases bands.len() - from,
{
    if from >= bands.len() {
        None
    } else if !bands[from] {
        Some(from)
    } else {
        first_unordered(bands, from + 1)
    }
}

/// The first rule `c` breaks, in the order the rules are checked, or `None`
/// when it keeps them all.
pub open spec fn first_broken_rule(c: SettingsCheck) -> Option<ConfigError> {
    let a = c.appearance@;
    if !(a == "system"@ || a == "light"@ || a == "dark"@) {
        Some(ConfigError::Appearance)
    } else if c.fft_size < 64 {
        Some(ConfigError::FftTooSmall)
    } else if !is_power_of_two(c.fft_size as nat) {
        Some(ConfigError::FftNotPowerOfTwo(c.fft_size))
    } else if !(c.hop > 0 && c.hop <= c.fft_size) {
        Some(ConfigError::HopOutOfRange)
    } else if !c.pcm_ring_seconds_positive {
        Some(ConfigError::PcmRingSeconds)
    } else if c.histogram_bins < 2 {
        Some(ConfigError::HistogramBins)
    } else if !c.spectrogram_band_wide {
        Some(ConfigError::SpectrogramBand)
    } else if !c.detect_band_wide {
        Some(ConfigError::DetectBand)
    } else if c.longterm_bands < 8 {
        Some(ConfigError::LongtermBands)
    } else if !c.longterm_fps_positive {
        Some(ConfigError::LongtermFps)
    } else if !c.analysis_rate_positive {
        Some(ConfigError::AnalysisRate)
    } else if !c.health_window_positive {
        Some(ConfigError::HealthWindow)
    } else if !c.morse_band_ordered {
        Some(ConfigError::MorseBand)
    } else if !(c.renderer@ == "glow"@ || c.renderer@ == "wgpu"@) {
        Some(ConfigError::Renderer(c.renderer))
    } else if !(c.capture_format@ == "flac"@ || c.capture_format@ == "wav"@) {
        Some(ConfigError::CaptureFormat(c.capture_format))
    } else if !c.overlay_offset_valid {
        Some(ConfigError::OverlayOffset)
    } else if !c.overlay_large_enough {
        Some(ConfigError::OverlaySize)
    } else if !c.overlay_seconds_positive {
        Some(ConfigError::OverlaySeconds)
    } else if !c.background_time_constant_positive {
        Some(ConfigError::BackgroundTimeConstant)
    } else if !c.background_freeze_longer {
        Some(ConfigError::BackgroundFreeze)
    } else if !c.journal_offset_finite {
        Some(ConfigError::JournalOffset)
    } else if !c.journal_window_valid {
        Some(ConfigError::JournalWindow)
    } else {
        match first_unordered(c.ignore_bands_ordered@, 0) {
            Some(k) => Some(ConfigError::IgnoreBand(k as usize)),
            None => None,
        }
    }
}

/// Whether `c` keeps every rule, each stated on its own.
pub open spec fn keeps_every_rule(c: SettingsCheck) -> bool {
    &&& (c.appearance@ == "system"@ || c.appearance@ == "light"@ || c.appearance@ == "dark"@)
    &&& c.fft_size >= 64
    &&& is_power_of_two(c.fft_size as nat)
    &&& 1 <= c.hop <= c.fft_size
    &&& c.pcm_ring_seconds_positive
    &&& c.histogram_bins >= 2
    &&& c.spectrogram_band_wide
    &&& c.detect_band_wide
    &&& c.longterm_bands >= 8
    &&& c.longterm_fps_positive
    &&& c.analysis_rate_positive
    &&& c.health_window_positive
    &&& c.morse_band_ordered
    &&& (c.renderer@ == "glow"@ || c.renderer@ == "wgpu"@)
    &&& (c.capture_format@ == "flac"@ || c.capture_format@ == "wav"@)
    &&& c.overlay_offset_valid
    &&& c.overlay_large_enough
    &&& c.overlay_seconds_positive
    &&& c.background_time_constant_positive
    &&& c.background_freeze_longer
    &&& c.journal_offset_finite
    &&& c.journal_window_valid
    &&& forall|i: int| 0 <= i < c.ignore_bands_ordered@.len() ==> #[trigger] c.ignore_bands_ordered@[i]
}

/// Whether `c` breaks the rule that `e` reports.
pub open spec fn breaks(c: SettingsCheck, e: ConfigError) -> bool {
    match e {
        ConfigError::Appearance => !(c.appearance@ == "system"@ || c.appearance@ == "light"@
            || c.appearance@ == "dark"@),
        ConfigError::FftTooSmall => c.fft_size < 64,
        ConfigError::FftNotPowerOfTwo(n) => n == c.fft_size && !is_power_of_two(n as nat),
        ConfigError::HopOutOfRange => c.hop == 0 || c.hop > c.fft_size,
        ConfigError::PcmRingSeconds => !c.pcm_ring_seconds_positive,
        ConfigError::HistogramBins => c.histogram_bins < 2,
        ConfigError::SpectrogramBand => !c.spectrogram_band_wide,
        ConfigError::DetectBand => !c.detect_band_wide,
        ConfigError::LongtermBands => c.longterm_bands < 8,
        ConfigError::LongtermFps => !c.longterm_fps_positive,
        ConfigError::AnalysisRate => !c.analysis_rate_positive,
        ConfigError::HealthWindow => !c.health_window_positive,
        ConfigError::MorseBand => !c.morse_band_ordered,
        ConfigError::Renderer(r) => r == c.renderer && !(r@ == "glow"@ || r@ == "wgpu"@),
        ConfigError::CaptureFormat(f) => f == c.capture_format && !(f@ == "flac"@ || f@
            == "wav"@),
        ConfigError::OverlayOffset => !c.overlay_offset_valid,
        ConfigError::OverlaySize => !c.overlay_large_enough,
        ConfigError::OverlaySeconds => !c.overlay_seconds_positive,
        ConfigError::BackgroundTimeConstant => !c.background_time_constant_positive,
        ConfigError::BackgroundFreeze => !c.background_freeze_longer,
        ConfigError::JournalOffset => !c.journal_offset_finite,
        ConfigError::JournalWindow => !c.journal_window_valid,
        ConfigError::IgnoreBand(k) => k < c.ignore_bands_ordered@.len()
            && !c.ignore_bands_ordered@[k as int],
    }
}

proof fn lemma_first_unordered(bands: Seq<bool>, from: int)
    requires
        0 <= from <= bands.len(),
    ensures
        first_unordered(bands, from) is None <==> forall|i: int|
            from <= i < bands.len() ==> #[trigger] bands[i],
        first_unordered(bands, from) matches Some(k) ==> from <= k < bands.len() && !bands[k]
            && forall|i: int| from <= i < k ==> #[trigger] bands[i],
    decreases bands.len() - from,
{
    if from < bands.len() {
        lemma_first_unordered(bands, from + 1);
    }
}

/// A configuration is accepted exactly when it keeps every rule; when it is
/// refused, the error names a rule it really breaks, and it keeps every rule
/// checked before that one. In particular fewer than eight long-term bands
/// are always refused, with `LongtermBands` when no earlier rule is broken.
pub proof fn law_only_a_configuration_keeping_every_rule_is_accepted(c: SettingsCheck)
    ensures
        first_broken_rule(c) is None <==> keeps_every_rule(c),
        first_broken_rule(c) matches Some(e) ==> breaks(c, e),
        c.longterm_bands < 8 ==> first_broken_rule(c) is Some,
        first_broken_rule(c) matches Some(ConfigError::IgnoreBand(k)) ==> forall|i: int|
            0 <= i < k ==> #[trigger] c.ignore_bands_ordered@[i],
{
    let bands = c.ignore_bands_ordered@;
    lemma_first_unordered(bands, 0);
    if let Some(ConfigError::IgnoreBand(k)) = first_broken_rule(c) {
        let j = first_unordered(bands, 0)->0;
        assert(bands.len() == c.ignore_bands_ordered.len());
        assert(j as usize == j);
    }
}

fn copy_string(s: &String) -> (c: String)
    ensures
        c == *s,
{
    s.clone()
}

fn first_unordered_band(bands: &Vec<bool>) -> (k: Option<usize>)
    ensures
        match first_unordered(bands@, 0) {
            Some(j) => k == Some(j as usize),
            None => k is None,
        },
{
    let mut i: usize = 0;
    while i < bands.len()
        invariant
            i <= bands@.len(),
            first_unordered(bands@, i as int) == first_unordered(bands@, 0),
        decreases bands.len() - i,
    {
        if !bands[i] {
            return Some(i);
        }
        i = i + 1;
    }
    None
}

/// Check a configuration against every rule, reporting the first it breaks.
pub fn validate(c: &SettingsCheck) -> (r: Result<(), ConfigError>)
    ensures
        match first_broken_rule(*c) {
            Some(e) => r == Err::<(), ConfigError>(e),
            None => r is Ok,
        },
{
    let a = c.appearance.as_str();
    if !(str_eq(a, "system") || str_eq(a, "light") || str_eq(a, "dark")) {
        return Err(ConfigError::Appearance);
    }
    if c.fft_size < 64 {
        return Err(ConfigError::FftTooSmall);
    }
    if !power_of_two(c.fft_size) {
        return Err(ConfigError::FftNotPowerOfTwo(c.fft_size));
    }
    if !(c.hop > 0 && c.hop <= c.fft_size) {
        return Err(ConfigError::HopOutOfRange);
    }
    if !c.pcm_ring_seconds_positive {
        return Err(ConfigError::PcmRingSeconds);
    }
    if c.histogram_bins < 2 {
        return Err(ConfigError::HistogramBins);
    }
    if !c.spectrogram_band_wide {
        return Err(ConfigError::SpectrogramBand);
    }
    if !c.detect_band_wide {
        return Err(ConfigError::DetectBand);
    }
    if c.longterm_bands < 8 {
        return Err(ConfigError::LongtermBands);
    }
    if !c.longterm_fps_positive {
        return Err(ConfigError::LongtermFps);
    }
    if !c.analysis_rate_positive {
        return Err(ConfigError::AnalysisRate);
    }
    if !c.health_window_positive {
        return Err(ConfigError::HealthWindow);
    }
    if !c.morse_band_ordered {
        return Err(ConfigError::MorseBand);
    }
    let renderer = c.renderer.as_str();
    if !(str_eq(renderer, "glow") || str_eq(renderer, "wgpu")) {
        return Err(ConfigError::Renderer(copy_string(&c.renderer)));
    }
    let format = c.capture_format.as_str();
    if !(str_eq(format, "flac") || str_eq(format, "wav")) {
        return Err(ConfigError::CaptureFormat(copy_string(&c.capture_format)));
    }
    if !c.overlay_offset_valid {
        return Err(ConfigError::OverlayOffset);
    }
    if !c.overlay_large_enough {
        return Err(ConfigError::OverlaySize);
    }
    if !c.overlay_seconds_positive {
        return Err(ConfigError::OverlaySeconds);
    }
    if !c.background_time_constant_positive {
        return Err(ConfigError::BackgroundTimeConstant);
    }
    if !c.background_freeze_longer {
        return Err(ConfigError::BackgroundFreeze);
    }
    if !c.journal_offset_finite {
        return Err(ConfigError::JournalOffset);
    }
    if !c.journal_window_valid {
        return Err(ConfigError::JournalWindow);
    }
    match first_unordered_band(&c.ignore_bands_ordered) {
        Some(k) => Err(ConfigError::IgnoreBand(k)),
        None => Ok(()),
    }
}

/// Where the settings file lives.
#[derive(Debug, Clone, Copy, PartialEq, Eq, Structural)]
pub enum ConfigHome {
    /// The per-user application data directory.
    UserData,
    /// Beside the executable.
    BesideExecutable,
    /// The working directory, when nothing better exists.
    WorkingDirectory,
}

/// Choose where the settings file lives. On macOS the per-user directory
/// comes first, because an application bundle is read-only in normal use.
/// Elsewhere the executable's own directory is used when it can be written,
/// so a portable copy keeps its settings with it; then the per-user
/// directory, then the executable's directory anyway, then the working
/// directory.
pub fn config_home(platform: Platform, user_data: bool, beside_executable: bool, beside_writable: bool) -> (home: ConfigHome)
    ensures
        home == (if platform == Platform::MacOs && user_data {
            ConfigHome::UserData
        } else if beside_executable && beside_writable {
            ConfigHome::BesideExecutable
        } else if user_data {
            ConfigHome::UserData
        } else if beside_executable {
            ConfigHome::BesideExecutable
        } else {
            ConfigHome::WorkingDirectory
        }),
{
    if platform == Platform::MacOs && user_data {
        ConfigHome::UserData
    } else if beside_executable && beside_writable {
        ConfigHome::BesideExecutable
    } else if user_data {
        ConfigHome::UserData
    } else if beside_executable {
        ConfigHome::BesideExecutable
    } else {
        ConfigHome::WorkingDirectory
    }
}

} // verus!
