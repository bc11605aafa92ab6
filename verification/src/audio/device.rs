//! Audio endpoint descriptors, and the policy for choosing one.
//!
//! Windows presents render endpoints opened in loopback; macOS presents input
//! devices, because a user-managed router exposes application audio that way.
//! The descriptor is shared while each platform keeps its own safety policy.

use vstd::prelude::*;
use vstd::string::StringExecFns;

use crate::text::str_eq;

verus! {

/// What a device gives us when opened.
#[derive(Debug, Clone, Copy, PartialEq, Eq, Structural)]
pub enum DeviceKind {
    /// A microphone or line input.
    Capture,
    /// An output endpoint, opened in loopback so we hear what it plays.
    RenderLoopback,
}

impl DeviceKind {
    pub fn is_loopback(self) -> (r: bool)
        ensures
            r == (self == DeviceKind::RenderLoopback),
    {
        self == DeviceKind::RenderLoopback
    }

    pub fn label(self) -> (s: &'static str)
        ensures
            s@ == (match self {
                DeviceKind::Capture => "input"@,
                DeviceKind::RenderLoopback => "loopback"@,
            }),
    {
        match self {
            DeviceKind::Capture => "input",
            DeviceKind::RenderLoopback => "loopback",
        }
    }
}

#[derive(Debug, Clone, PartialEq, Eq)]
pub struct AudioDevice {
    /// Endpoint id — stable across reboots, and what gets persisted to config.
    pub id: String,
    pub name: String,
    pub kind: DeviceKind,
    pub is_default: bool,
}

/// The picker line for a device: its name, tagged when it is a loopback
/// endpoint and when it is the system default.
pub open spec fn spec_display_name(name: Seq<char>, kind: DeviceKind, is_default: bool) -> Seq<
    char,
> {
    let tagged = if kind == DeviceKind::RenderLoopback {
        name + " [LOOPBACK]"@
    } else {
        name
    };
    if is_default {
        tagged + " (default)"@
    } else {
        tagged
    }
}

impl AudioDevice {
    /// One line for the device picker.
    pub fn display_name(&self) -> (s: String)
        ensures
            s@ == spec_display_name(self.name@, self.kind, self.is_default),
    {
        let mut s = String::from_str(self.name.as_str());
        if self.kind.is_loopback() {
            s.append(" [LOOPBACK]");
        }
        if self.is_default {
            s.append(" (default)");
        }
        s
    }
}

/// Which selection policy applies.
#[derive(Debug, Clone, Copy, PartialEq, Eq, Structural)]
pub enum Platform {
    /// Render endpoints in loopback; falls back to the default output.
    Windows,
    /// Inputs only, and only the one explicitly configured.
    MacOs,
    /// No live capture backend at all.
    Other,
}

/// `k` is the first index of `s` whose element satisfies `p`, or there is none
/// and `k` is `None`.
pub open spec fn is_first_where<A>(s: Seq<A>, p: spec_fn(A) -> bool, k: Option<int>) -> bool {
    match k {
        Some(i) => 0 <= i < s.len() && p(s[i]) && forall|j: int| 0 <= j < i ==> !p(s[j]),
        None => forall|j: int| 0 <= j < s.len() ==> !p(s[j]),
    }
}

/// An optional position, as a mathematical index.
pub open spec fn as_index(k: Option<usize>) -> Option<int> {
    match k {
        Some(i) => Some(i as int),
        None => None,
    }
}

pub open spec fn has_id(id: Seq<char>) -> spec_fn(AudioDevice) -> bool {
    |d: AudioDevice| d.id@ == id
}

pub open spec fn is_default_output() -> spec_fn(AudioDevice) -> bool {
    |d: AudioDevice| d.kind == DeviceKind::RenderLoopback && d.is_default
}

pub open spec fn is_output() -> spec_fn(AudioDevice) -> bool {
    |d: AudioDevice| d.kind == DeviceKind::RenderLoopback
}

/// The first index of a device with the given id.
fn find_id(devices: &[AudioDevice], id: &str) -> (k: Option<usize>)
    ensures
        is_first_where(devices@, has_id(id@), as_index(k)),
{
    let mut i: usize = 0;
    while i < devices.len()
        invariant
            i <= devices@.len(),
            forall|j: int| 0 <= j < i ==> !(#[trigger] has_id(id@)(devices@[j])),
        decreases devices.len() - i,
    {
        if str_eq(devices[i].id.as_str(), id) {
            return Some(i);
        }
        i = i + 1;
    }
    None
}

/// The first index of an output endpoint, or of a default output endpoint when
/// `default_only` is set.
fn find_output(devices: &[AudioDevice], default_only: bool) -> (k: Option<usize>)
    ensures
        is_first_where(
            devices@,
            if default_only {
                is_default_output()
            } else {
                is_output()
            },
            as_index(k),
        ),
{
    let ghost p = if default_only {
        is_default_output()
    } else {
        is_output()
    };
    let mut i: usize = 0;
    while i < devices.len()
        invariant
            i <= devices@.len(),
            p == (if default_only {
                is_default_output()
            } else {
                is_output()
            }),
            forall|j: int| 0 <= j < i ==> !(#[trigger] p(devices@[j])),
        decreases devices.len() - i,
    {
        let d = &devices[i];
        if d.kind.is_loopback() && (d.is_default || !default_only) {
            return Some(i);
        }
        i = i + 1;
    }
    None
}

/// The index the Windows policy chooses.
///
/// An explicitly configured id is honoured only if it is an output; otherwise,
/// or when it is absent, the default output is used, then any output. A
/// microphone is never a substitute for the game's output.
pub open spec fn windows_choice(devices: Seq<AudioDevice>, id: Seq<char>) -> Option<int> {
    let by_id = choose|k: Option<int>| is_first_where(devices, has_id(id), k);
    let default_out = choose|k: Option<int>| is_first_where(devices, is_default_output(), k);
    let any_out = choose|k: Option<int>| is_first_where(devices, is_output(), k);
    if id.len() != 0 && by_id is Some && devices[by_id->0].kind == DeviceKind::RenderLoopback {
        by_id
    } else if default_out is Some {
        default_out
    } else {
        any_out
    }
}

/// The index the macOS policy chooses: the explicitly configured input, and
/// nothing else.
pub open spec fn macos_choice(devices: Seq<AudioDevice>, id: Seq<char>) -> Option<int> {
    let by_id = choose|k: Option<int>| is_first_where(devices, has_id(id), k);
    if id.len() != 0 && by_id is Some && devices[by_id->0].kind == DeviceKind::Capture {
        by_id
    } else {
        None
    }
}

/// The index a platform's policy chooses.
pub open spec fn spec_select(devices: Seq<AudioDevice>, id: Seq<char>, platform: Platform) -> Option<
    int,
> {
    match platform {
        Platform::Windows => windows_choice(devices, id),
        Platform::MacOs => macos_choice(devices, id),
        Platform::Other => None,
    }
}

proof fn lemma_first_unique<A>(s: Seq<A>, p: spec_fn(A) -> bool, k: Option<int>)
    requires
        is_first_where(s, p, k),
    ensures
        (choose|m: Option<int>| is_first_where(s, p, m)) == k,
{
    let m = choose|m: Option<int>| is_first_where(s, p, m);
    assert(is_first_where(s, p, m));
    match (k, m) {
        (Some(a), Some(b)) => {
            if a < b {
                assert(!p(s[a]));
            } else if b < a {
                assert(!p(s[b]));
            }
        },
        (Some(a), None) => {
            assert(!p(s[a]));
        },
        (None, Some(b)) => {
            assert(!p(s[b]));
        },
        (None, None) => {},
    }
}

/// Choose an endpoint on Windows: the configured output, else the default
/// output, else any output.
pub fn select_windows<'a>(devices: &'a [AudioDevice], id: &str) -> (r: Option<&'a AudioDevice>)
    ensures
        match windows_choice(devices@, id@) {
            Some(k) => r == Some(&devices@[k]),
            None => r is None,
        },
{
    let by_id = find_id(devices, id);
    proof {
        lemma_first_unique(devices@, has_id(id@), as_index(by_id));
    }
    if !id.is_empty() {
        if let Some(k) = by_id {
            if devices[k].kind.is_loopback() {
                return Some(&devices[k]);
            }
        }
    }
    let default_out = find_output(devices, true);
    proof {
        lemma_first_unique(devices@, is_default_output(), as_index(default_out));
    }
    if let Some(k) = default_out {
        return Some(&devices[k]);
    }
    let any_out = find_output(devices, false);
    proof {
        lemma_first_unique(devices@, is_output(), as_index(any_out));
    }
    match any_out {
        Some(k) => Some(&devices[k]),
        None => None,
    }
}

/// Choose an endpoint on macOS: exactly the configured input, or nothing.
///
/// Core Audio cannot distinguish a virtual application-audio device from a
/// physical microphone, and silently choosing the latter would record the room.
pub fn select_macos<'a>(devices: &'a [AudioDevice], id: &str) -> (r: Option<&'a AudioDevice>)
    ensures
        match macos_choice(devices@, id@) {
            Some(k) => r == Some(&devices@[k]),
            None => r is None,
        },
{
    let by_id = find_id(devices, id);
    proof {
        lemma_first_unique(devices@, has_id(id@), as_index(by_id));
    }
    if id.is_empty() {
        return None;
    }
    match by_id {
        Some(k) => {
            if devices[k].kind == DeviceKind::Capture {
                Some(&devices[k])
            } else {
                None
            }
        },
        None => None,
    }
}

/// Choose an endpoint that can legitimately carry the game's audio, by the
/// given platform's policy.
pub fn select<'a>(devices: &'a [AudioDevice], id: &str, platform: Platform) -> (r: Option<
    &'a AudioDevice,
>)
    ensures
        match spec_select(devices@, id@, platform) {
            Some(k) => r == Some(&devices@[k]),
            None => r is None,
        },
{
    match platform {
        Platform::Windows => select_windows(devices, id),
        Platform::MacOs => select_macos(devices, id),
        Platform::Other => None,
    }
}

proof fn lemma_first_exists<A>(s: Seq<A>, p: spec_fn(A) -> bool)
    ensures
        exists|k: Option<int>| is_first_where(s, p, k),
    decreases s.len(),
{
    if s.len() == 0 {
        assert(is_first_where(s, p, None));
    } else if p(s[0]) {
        assert(is_first_where(s, p, Some(0)));
    } else {
        lemma_first_exists(s.drop_first(), p);
        let k = choose|k: Option<int>| is_first_where(s.drop_first(), p, k);
        match k {
            Some(i) => {
                assert forall|j: int| 0 <= j < i + 1 implies !p(s[j]) by {
                    if j > 0 {
                        assert(s[j] == s.drop_first()[j - 1]);
                    }
                }
                assert(is_first_where(s, p, Some(i + 1)));
            },
            None => {
                assert forall|j: int| 0 <= j < s.len() implies !p(s[j]) by {
                    if j > 0 {
                        assert(s[j] == s.drop_first()[j - 1]);
                    }
                }
                assert(is_first_where(s, p, None));
            },
        }
    }
}

/// The game's audio is never taken from a microphone on Windows: whatever is
/// configured, the policy chooses an output endpoint or nothing. On macOS it
/// chooses exactly the configured input or nothing, and never without one.
pub proof fn law_only_legitimate_endpoints_are_chosen(devices: Seq<AudioDevice>, id: Seq<char>)
    ensures
        windows_choice(devices, id) matches Some(k) ==> 0 <= k < devices.len()
            && devices[k].kind == DeviceKind::RenderLoopback,
        macos_choice(devices, id) matches Some(k) ==> 0 <= k < devices.len()
            && devices[k].kind == DeviceKind::Capture && devices[k].id@ == id && id.len() != 0,
        spec_select(devices, id, Platform::Other) is None,
{
    lemma_first_exists(devices, has_id(id));
    lemma_first_exists(devices, is_default_output());
    lemma_first_exists(devices, is_output());
    let by_id = choose|k: Option<int>| is_first_where(devices, has_id(id), k);
    let default_out = choose|k: Option<int>| is_first_where(devices, is_default_output(), k);
    let any_out = choose|k: Option<int>| is_first_where(devices, is_output(), k);
    assert(is_first_where(devices, has_id(id), by_id));
    assert(is_first_where(devices, is_default_output(), default_out));
    assert(is_first_where(devices, is_output(), any_out));
}

/// Prepare the calling thread for endpoint enumeration. Nothing is needed
/// where there is no component object model.
pub fn ensure_com() {
}

/// Prepare the capture thread. Nothing is needed where there is no component
/// object model.
pub fn ensure_com_mta() {
}

/// The picker entry for an endpoint found while enumerating: its name, or a
/// stand-in naming its kind when the name could not be read, and whether it
/// is the system default for its direction.
pub fn endpoint_entry(id: String, name: Option<String>, kind: DeviceKind, default_id: Option<&str>) -> (d: AudioDevice)
    ensures
        d.id == id,
        d.kind == kind,
        d.name@ == (match name {
            Some(n) => n@,
            None => "Unknown "@ + (match kind {
                DeviceKind::Capture => "input"@,
                DeviceKind::RenderLoopback => "loopback"@,
            }),
        }),
        d.is_default == (default_id matches Some(def) && def@ == id@),
{
    let name = match name {
        Some(n) => n,
        None => {
            let mut n = String::from_str("Unknown ");
            n.append(kind.label());
            n
        },
    };
    let is_default = match default_id {
        Some(def) => str_eq(def, id.as_str()),
        None => false,
    };
    AudioDevice { id, name, kind, is_default }
}

/// The audio subsystem could not list its endpoints.
#[derive(Debug, Clone)]
pub struct EnumerationError {
    /// What the subsystem reported.
    pub reason: String,
}

/// The endpoints present. Where there is no live capture backend there are
/// none, and listing them cannot fail.
pub fn enumerate() -> (devices: Result<Vec<AudioDevice>, EnumerationError>)
    ensures
        devices matches Ok(found) && found@.len() == 0,
{
    Ok(Vec::new())
}

} // verus!
