//! The decisions the desktop window is built from: which renderer a setting
//! names, when the in-game overlay is shown, and how exported files are named
//! and sized. Drawing itself happens outside the library.

pub mod events;
pub mod overlay;
pub mod waterfall;

use vstd::prelude::*;

use vstd::string::StringExecFns;

use crate::text::{chars_of, sanitize, sanitized, trim_chars, trimmed};

verus! {

/// Which renderer to draw with. `Glow` is the default: every crash this tool
/// has had in the field was a wgpu validation error; wgpu is kept so it can
/// be selected without a rebuild, and as a fallback for a machine whose
/// OpenGL driver is too old for glow.
#[derive(Debug, Clone, Copy, PartialEq, Eq, Structural)]
pub enum Backend {
    Glow,
    Wgpu,
}

/// Whether `t` spells `word`, a lower-case word, in any mix of ASCII case.
pub open spec fn is_word_ignoring_case(t: Seq<char>, word: Seq<char>) -> bool {
    &&& t.len() == word.len()
    &&& forall|k: int|
        0 <= k < t.len() ==> t[k] == word[k] || (0x41 <= (t[k] as u32) <= 0x5a && (t[k] as u32)
            + 32 == (word[k] as u32))
}

/// The renderer a setting names, ignoring case and surrounding white space.
pub open spec fn spec_parse_backend(s: Seq<char>) -> Option<Backend> {
    let t = trimmed(s);
    if is_word_ignoring_case(t, "glow"@) || is_word_ignoring_case(t, "opengl"@)
        || is_word_ignoring_case(t, "gl"@) {
        Some(Backend::Glow)
    } else if is_word_ignoring_case(t, "wgpu"@) || is_word_ignoring_case(t, "dx12"@)
        || is_word_ignoring_case(t, "vulkan"@) {
        Some(Backend::Wgpu)
    } else {
        None
    }
}

/// Whether `t` spells `word`, a lower-case word, in any mix of ASCII case.
fn word_ignoring_case(t: &Vec<char>, word: &str) -> (r: bool)
    ensures
        r == is_word_ignoring_case(t@, word@),
{
    let w = chars_of(word);
    if t.len() != w.len() {
        return false;
    }
    let mut k: usize = 0;
    while k < t.len()
        invariant
            k <= t@.len() == w@.len(),
            w@ == word@,
            forall|m: int|
                0 <= m < k ==> t@[m] == w@[m] || (0x41 <= (t@[m] as u32) <= 0x5a && (t@[m] as u32)
                    + 32 == (w@[m] as u32)),
        decreases t.len() - k,
    {
        let c = t[k];
        let d = w[k];
        let upper = 0x41 <= (c as u32) && (c as u32) <= 0x5a;
        if !(c == d || (upper && (c as u32) + 32 == (d as u32))) {
            return false;
        }
        k = k + 1;
    }
    true
}

impl Backend {
    /// The renderer a setting or a command-line flag names, ignoring case and
    /// surrounding white space.
    pub fn parse(s: &str) -> (b: Option<Backend>)
        ensures
            b == spec_parse_backend(s@),
    {
        let t = trim_chars(s);
        if word_ignoring_case(&t, "glow") || word_ignoring_case(&t, "opengl") || word_ignoring_case(
            &t,
            "gl",
        ) {
            Some(Backend::Glow)
        } else if word_ignoring_case(&t, "wgpu") || word_ignoring_case(&t, "dx12")
            || word_ignoring_case(&t, "vulkan") {
            Some(Backend::Wgpu)
        } else {
            None
        }
    }

    pub open spec fn spec_as_str(self) -> &'static str {
        match self {
            Backend::Glow => "glow",
            Backend::Wgpu => "wgpu",
        }
    }

    pub fn as_str(self) -> (s: &'static str)
        ensures
            s == self.spec_as_str(),
    {
        match self {
            Backend::Glow => "glow",
            Backend::Wgpu => "wgpu",
        }
    }

    /// The one to try when this one will not start.
    pub fn fallback(self) -> (other: Backend)
        ensures
            other != self,
    {
        match self {
            Backend::Glow => Backend::Wgpu,
            Backend::Wgpu => Backend::Glow,
        }
    }
}

/// The name of the renderer recorded as drawing: 1 for glow, 2 for wgpu, and
/// anything else before the window opens.
pub fn active_backend(code: u8) -> (name: &'static str)
    ensures
        name == (if code == 1 {
            "glow"
        } else if code == 2 {
            "wgpu"
        } else {
            "none"
        }),
{
    match code {
        1 => "glow",
        2 => "wgpu",
        _ => "none",
    }
}

/// The code `active_backend` reads for a renderer.
pub fn backend_code(backend: Backend) -> (code: u8)
    ensures
        active_backend_name(code) == backend.spec_as_str(),
        code == 1 || code == 2,
{
    match backend {
        Backend::Glow => 1,
        Backend::Wgpu => 2,
    }
}

pub open spec fn active_backend_name(code: u8) -> &'static str {
    if code == 1 {
        "glow"
    } else if code == 2 {
        "wgpu"
    } else {
        "none"
    }
}

/// Make a string safe for a Windows filename: letters, digits, `-`, `_` and
/// `.` are kept and everything else becomes `-`.
pub fn sanitize_for_filename(s: &str) -> (r: String)
    ensures
        r@ == sanitized(s@),
{
    sanitize(s)
}

/// Export height: the one that keeps the published spectrograms' stroke
/// angles when that is asked for, else the configured one.
pub fn export_height(match_published_aspect: bool, configured: usize, matched: usize) -> (h: usize)
    ensures
        h == (if match_published_aspect {
            matched
        } else {
            configured
        }),
{
    if match_published_aspect {
        matched
    } else {
        configured
    }
}

/// Whether the overlay should be painted this frame: Elite, and only Elite,
/// found and focused. The overlay belongs to the cockpit.
pub fn overlay_visible(game_found: bool, game_focused: bool) -> (v: bool)
    ensures
        v == (game_found && game_focused),
{
    game_found && game_focused
}

/// How the overlay window is presented this frame. The window is never
/// closed; it is hidden by making it transparent, or, until that has taken
/// effect, by parking it off-screen.
#[derive(Debug, Clone, Copy, PartialEq, Eq, Structural)]
pub struct OverlayPresentation {
    /// Whether the overlay shows anything.
    pub showing: bool,
    /// Whether the window is moved off-screen rather than placed over the
    /// game.
    pub parked: bool,
    /// The opacity the window should have.
    pub wanted_alpha: u8,
    /// Whether the opacity must be set again.
    pub set_alpha: bool,
}

/// Present the overlay: shown when it is enabled and the game is found and
/// focused. A window that should not be seen is never visible: it is either
/// already transparent or parked off-screen.
pub fn present_overlay(enabled: bool, game_found: bool, game_focused: bool, current_alpha: Option<u8>) -> (p: OverlayPresentation)
    ensures
        p.showing == (enabled && game_found && game_focused),
        p.parked == !(p.showing || current_alpha == Some(0u8)),
        p.wanted_alpha == (if p.showing {
            255u8
        } else {
            0u8
        }),
        p.set_alpha == (current_alpha != Some(p.wanted_alpha)),
        !p.showing ==> (p.parked || current_alpha == Some(0u8)),
{
    let showing = enabled && overlay_visible(game_found, game_focused);
    let hidden_by_opacity = match current_alpha {
        Some(a) => a == 0,
        None => false,
    };
    let wanted_alpha: u8 = if showing {
        255
    } else {
        0
    };
    let set_alpha = match current_alpha {
        Some(a) => a != wanted_alpha,
        None => true,
    };
    OverlayPresentation { showing, parked: !(showing || hidden_by_opacity), wanted_alpha, set_alpha }
}

/// The file name of an exported spectrogram: where it was taken, then when,
/// so a folder of exports sorts by system and the name alone identifies the
/// observation; then whether it shows raw level or excess over background.
pub open spec fn spec_export_file_name(system: Seq<char>, stamp: Seq<char>, excess: bool) -> Seq<char> {
    sanitized(system) + "-"@ + stamp + (if excess {
        "-excess"@
    } else {
        "-raw"@
    }) + ".png"@
}

/// The file name of an exported spectrogram. An export made where the
/// journal has named no system is filed under `unknown-system`.
pub fn export_file_name(system: Option<&str>, stamp: &str, excess: bool) -> (name: String)
    ensures
        name@ == spec_export_file_name(
            match system {
                Some(s) => s@,
                None => "unknown-system"@,
            },
            stamp@,
            excess,
        ),
{
    let place = match system {
        Some(s) => s,
        None => "unknown-system",
    };
    let mut name = sanitize(place);
    name.append("-");
    name.append(stamp);
    if excess {
        name.append("-excess");
    } else {
        name.append("-raw");
    }
    name.append(".png");
    name
}

} // verus!
