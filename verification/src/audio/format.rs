//! Stream format handling: sample encodings, their classification and
//! decoding, and the channel layout named by a speaker mask.
//!
//! Azimuth convention used throughout the application: 0° is the ship's nose,
//! negative is to port, positive to starboard, range `(-180, 180]`.

use vstd::prelude::*;

verus! {

/// Interleaved sample encodings an endpoint can hand us in shared mode.
#[derive(Debug, Clone, Copy, PartialEq, Eq, Structural)]
pub enum SampleFormat {
    F32,
    I16,
    /// Packed 24-bit, three bytes per sample.
    I24,
    I32,
}

impl SampleFormat {
    /// Container size of one sample, in bytes.
    pub open spec fn spec_bytes_per_sample(self) -> nat {
        match self {
            SampleFormat::F32 | SampleFormat::I32 => 4,
            SampleFormat::I24 => 3,
            SampleFormat::I16 => 2,
        }
    }

    pub fn bytes_per_sample(self) -> (n: usize)
        ensures
            n == self.spec_bytes_per_sample(),
    {
        match self {
            SampleFormat::F32 | SampleFormat::I32 => 4,
            SampleFormat::I24 => 3,
            SampleFormat::I16 => 2,
        }
    }

    /// Short name for the UI.
    pub fn label(self) -> (s: &'static str)
        ensures
            s@ == (match self {
                SampleFormat::F32 => "F32"@,
                SampleFormat::I16 => "S16"@,
                SampleFormat::I24 => "S24"@,
                SampleFormat::I32 => "S32"@,
            }),
    {
        match self {
            SampleFormat::F32 => "F32",
            SampleFormat::I16 => "S16",
            SampleFormat::I24 => "S24",
            SampleFormat::I32 => "S32",
        }
    }
}

/// Choose a sample format from the container size and whether the stream is
/// float.
///
/// The container size — block alignment over channel count — is what matters,
/// not the valid bits: 24 valid bits inside a 4-byte container is a 32-bit
/// stream whose low byte is zero.
pub open spec fn spec_classify(container_bytes: usize, is_float: bool) -> Option<SampleFormat> {
    if container_bytes == 4 && is_float {
        Some(SampleFormat::F32)
    } else if container_bytes == 4 && !is_float {
        Some(SampleFormat::I32)
    } else if container_bytes == 3 && !is_float {
        Some(SampleFormat::I24)
    } else if container_bytes == 2 && !is_float {
        Some(SampleFormat::I16)
    } else {
        None
    }
}

/// Choose a sample format from the container size and whether the stream is
/// float.
pub fn classify(container_bytes: usize, is_float: bool) -> (r: Option<SampleFormat>)
    ensures
        r == spec_classify(container_bytes, is_float),
{
    match (container_bytes, is_float) {
        (4, true) => Some(SampleFormat::F32),
        (4, false) => Some(SampleFormat::I32),
        (3, false) => Some(SampleFormat::I24),
        (2, false) => Some(SampleFormat::I16),
        _ => None,
    }
}

/// Little-endian unsigned value of a byte sequence.
pub open spec fn le_unsigned(b: Seq<u8>) -> int
    decreases b.len(),
{
    if b.len() == 0 {
        0
    } else {
        b[0] + 256 * le_unsigned(b.drop_first())
    }
}

/// `256` raised to the number of bytes.
pub open spec fn byte_range(n: nat) -> int
    decreases n,
{
    if n == 0 {
        1
    } else {
        256 * byte_range((n - 1) as nat)
    }
}

/// Little-endian two's-complement value of a byte sequence.
pub open spec fn le_signed(b: Seq<u8>) -> int {
    if b.len() > 0 && b.last() >= 128 {
        le_unsigned(b) - byte_range(b.len())
    } else {
        le_unsigned(b)
    }
}

/// The integer code of sample `i` in a raw interleaved buffer.
///
/// For the integer formats this is the sample value. For `F32` it is the
/// little-endian bit pattern of the float, reinterpreted as a signed word.
pub open spec fn sample_code(raw: Seq<u8>, format: SampleFormat, i: int) -> int {
    let n = format.spec_bytes_per_sample() as int;
    le_signed(raw.subrange(i * n, i * n + n))
}

proof fn lemma_le_four(b: Seq<u8>)
    requires
        b.len() == 4,
    ensures
        le_unsigned(b) == b[0] + 256 * b[1] + 65536 * b[2] + 16777216 * b[3],
        byte_range(4) == 4294967296,
{
    reveal_with_fuel(le_unsigned, 5);
    reveal_with_fuel(byte_range, 5);
    assert(b.drop_first().drop_first().drop_first().drop_first().len() == 0);
}

proof fn lemma_le_three(b: Seq<u8>)
    requires
        b.len() == 3,
    ensures
        le_unsigned(b) == b[0] + 256 * b[1] + 65536 * b[2],
        byte_range(3) == 16777216,
{
    reveal_with_fuel(le_unsigned, 4);
    reveal_with_fuel(byte_range, 4);
    assert(b.drop_first().drop_first().drop_first().len() == 0);
}

proof fn lemma_le_two(b: Seq<u8>)
    requires
        b.len() == 2,
    ensures
        le_unsigned(b) == b[0] + 256 * b[1],
        byte_range(2) == 65536,
{
    reveal_with_fuel(le_unsigned, 3);
    reveal_with_fuel(byte_range, 3);
    assert(b.drop_first().drop_first().len() == 0);
}

/// The value of one sample whose bytes start at `pos`.
fn decode_one(raw: &[u8], pos: usize, format: SampleFormat) -> (v: i32)
    requires
        pos + format.spec_bytes_per_sample() <= raw@.len(),
    ensures
        v == le_signed(raw@.subrange(pos as int, pos + format.spec_bytes_per_sample())),
{
    let ghost b = raw@.subrange(pos as int, pos + format.spec_bytes_per_sample());
    match format {
        SampleFormat::I16 => {
            proof {
                lemma_le_two(b);
            }
            let u: i64 = raw[pos] as i64 + 256 * (raw[pos + 1] as i64);
            let v: i64 = if raw[pos + 1] >= 128 {
                u - 65536
            } else {
                u
            };
            v as i32
        },
        SampleFormat::I24 => {
            proof {
                lemma_le_three(b);
            }
            let u: i64 = raw[pos] as i64 + 256 * (raw[pos + 1] as i64) + 65536 * (
            raw[pos + 2] as i64);
            let v: i64 = if raw[pos + 2] >= 128 {
                u - 16777216
            } else {
                u
            };
            v as i32
        },
        SampleFormat::F32 | SampleFormat::I32 => {
            proof {
                lemma_le_four(b);
            }
            let u: i64 = raw[pos] as i64 + 256 * (raw[pos + 1] as i64) + 65536 * (
            raw[pos + 2] as i64) + 16777216 * (raw[pos + 3] as i64);
            let v: i64 = if raw[pos + 3] >= 128 {
                u - 4294967296
            } else {
                u
            };
            v as i32
        },
    }
}

/// Decode a raw interleaved byte buffer into one integer code per sample.
///
/// Trailing bytes that do not form a whole sample are ignored; a short final
/// packet is a device quirk, not something worth failing capture over.
pub fn decode_samples(raw: &[u8], format: SampleFormat) -> (out: Vec<i32>)
    ensures
        out@.len() == raw@.len() / format.spec_bytes_per_sample(),
        forall|i: int| 0 <= i < out@.len() ==> out@[i] == sample_code(raw@, format, i),
{
    let n = format.bytes_per_sample();
    let total = raw.len();
    let count = total / n;
    let mut out: Vec<i32> = Vec::new();
    let mut i: usize = 0;
    let mut pos: usize = 0;
    while i < count
        invariant
            n == format.spec_bytes_per_sample(),
            n > 0,
            total == raw@.len(),
            count == raw@.len() / (n as nat),
            i <= count,
            pos == i * n,
            out@.len() == i,
            forall|k: int| 0 <= k < i ==> out@[k] == sample_code(raw@, format, k),
        decreases count - i,
    {
        assert(pos + n <= raw@.len()) by (nonlinear_arith)
            requires
                pos == i * n,
                i < count,
                count == raw@.len() / (n as nat),
                n > 0,
        ;
        let v = decode_one(raw, pos, format);
        out.push(v);
        assert((i + 1) * n == i * n + n) by (nonlinear_arith);
        pos = pos + n;
        i = i + 1;
    }
    out
}

// Speaker-position bits of a channel mask, in the order the endpoint
// interleaves them.
pub const SPEAKER_FRONT_LEFT: u32 = 0x1;

pub const SPEAKER_FRONT_RIGHT: u32 = 0x2;

pub const SPEAKER_FRONT_CENTER: u32 = 0x4;

pub const SPEAKER_LOW_FREQUENCY: u32 = 0x8;

pub const SPEAKER_BACK_LEFT: u32 = 0x10;

pub const SPEAKER_BACK_RIGHT: u32 = 0x20;

pub const SPEAKER_FRONT_LEFT_OF_CENTER: u32 = 0x40;

pub const SPEAKER_FRONT_RIGHT_OF_CENTER: u32 = 0x80;

pub const SPEAKER_BACK_CENTER: u32 = 0x100;

pub const SPEAKER_SIDE_LEFT: u32 = 0x200;

pub const SPEAKER_SIDE_RIGHT: u32 = 0x400;

pub const SPEAKER_TOP_CENTER: u32 = 0x800;

pub const SPEAKER_TOP_FRONT_LEFT: u32 = 0x1000;

pub const SPEAKER_TOP_FRONT_CENTER: u32 = 0x2000;

pub const SPEAKER_TOP_FRONT_RIGHT: u32 = 0x4000;

pub const SPEAKER_TOP_BACK_LEFT: u32 = 0x8000;

pub const SPEAKER_TOP_BACK_CENTER: u32 = 0x10000;

pub const SPEAKER_TOP_BACK_RIGHT: u32 = 0x20000;

/// Front left and right.
pub const MASK_STEREO: u32 = 0x3;

/// Stereo plus the two backs.
pub const MASK_QUAD: u32 = 0x33;

/// Stereo, centre, LFE and the two backs.
pub const MASK_5_1: u32 = 0x3f;

/// 5.1 plus the two sides.
pub const MASK_7_1: u32 = 0x63f;

/// One channel's role in the layout.
#[derive(Debug, Clone, Copy, PartialEq, Eq)]
pub struct ChannelInfo {
    /// Azimuth in whole degrees, or `None` for channels that carry no usable
    /// direction — LFE (no directional content) and height channels (the
    /// direction finder is horizontal-only).
    pub azimuth_deg: Option<i16>,
    pub name: &'static str,
}

/// The speaker bits, in mask-bit order.
pub open spec fn speaker_bits() -> Seq<u32> {
    seq![
        0x1u32, 0x2, 0x4, 0x8, 0x10, 0x20, 0x40, 0x80, 0x100, 0x200, 0x400, 0x800, 0x1000,
        0x2000, 0x4000, 0x8000, 0x10000, 0x20000,
    ]
}

/// The role of each speaker bit, in mask-bit order, given where the backs sit.
pub open spec fn speaker_roles(back: i16) -> Seq<ChannelInfo> {
    seq![
        ChannelInfo { azimuth_deg: Some(-30i16), name: "FL" },
        ChannelInfo { azimuth_deg: Some(30i16), name: "FR" },
        ChannelInfo { azimuth_deg: Some(0i16), name: "FC" },
        ChannelInfo { azimuth_deg: None, name: "LFE" },
        ChannelInfo { azimuth_deg: Some((-back) as i16), name: "BL" },
        ChannelInfo { azimuth_deg: Some(back), name: "BR" },
        ChannelInfo { azimuth_deg: Some(-15i16), name: "FLC" },
        ChannelInfo { azimuth_deg: Some(15i16), name: "FRC" },
        ChannelInfo { azimuth_deg: Some(180i16), name: "BC" },
        ChannelInfo { azimuth_deg: Some(-90i16), name: "SL" },
        ChannelInfo { azimuth_deg: Some(90i16), name: "SR" },
        ChannelInfo { azimuth_deg: None, name: "TC" },
        ChannelInfo { azimuth_deg: None, name: "TFL" },
        ChannelInfo { azimuth_deg: None, name: "TFC" },
        ChannelInfo { azimuth_deg: None, name: "TFR" },
        ChannelInfo { azimuth_deg: None, name: "TBL" },
        ChannelInfo { azimuth_deg: None, name: "TBC" },
        ChannelInfo { azimuth_deg: None, name: "TBR" },
    ]
}

/// Back speakers sit at ±110° in a 5.1 layout and ±135° in 7.1; the mask does
/// not distinguish the two, but the presence of side channels does.
pub open spec fn back_azimuth(mask: u32) -> i16 {
    if mask & 0x600u32 != 0 {
        135
    } else {
        110
    }
}

/// The roles of the speakers the mask names, among the first `n` bits.
pub open spec fn named_speakers(mask: u32, back: i16, n: nat) -> Seq<ChannelInfo>
    decreases n,
{
    if n == 0 {
        Seq::empty()
    } else {
        let earlier = named_speakers(mask, back, (n - 1) as nat);
        if mask & speaker_bits()[n - 1] != 0 {
            earlier.push(speaker_roles(back)[n - 1])
        } else {
            earlier
        }
    }
}

/// A channel that carries no usable direction and has no known role.
pub open spec fn unknown_channel() -> ChannelInfo {
    ChannelInfo { azimuth_deg: None, name: "?" }
}

/// `named` cut or padded with unknown channels to exactly `channels` entries.
pub open spec fn fit_to(named: Seq<ChannelInfo>, channels: nat) -> Seq<ChannelInfo> {
    Seq::new(
        channels,
        |i: int|
            if i < named.len() {
                named[i]
            } else {
                unknown_channel()
            },
    )
}

/// The layout a non-zero mask describes for a stream of `channels` channels.
pub open spec fn masked_layout(mask: u32, channels: nat) -> Seq<ChannelInfo> {
    fit_to(named_speakers(mask, back_azimuth(mask), 18), channels)
}

/// The layout of a stream: from its mask, or from its channel count when it
/// declares none.
pub open spec fn spec_channel_layout(mask: u32, channels: nat) -> Seq<ChannelInfo> {
    if mask != 0 {
        masked_layout(mask, channels)
    } else if channels == 1 {
        seq![ChannelInfo { azimuth_deg: Some(0i16), name: "M" }]
    } else if channels == 2 {
        masked_layout(0x3, 2)
    } else if channels == 4 {
        masked_layout(0x33, 4)
    } else if channels == 6 {
        masked_layout(0x3f, 6)
    } else if channels == 8 {
        masked_layout(0x63f, 8)
    } else {
        fit_to(Seq::empty(), channels)
    }
}

fn speaker_table(back: i16) -> (t: Vec<(u32, ChannelInfo)>)
    requires
        back == 110 || back == 135,
    ensures
        t@.len() == 18,
        forall|k: int|
            0 <= k < 18 ==> t@[k].0 == speaker_bits()[k] && t@[k].1 == speaker_roles(back)[k],
{
    let back_left: i16 = -back;
    let t = vec![
        (SPEAKER_FRONT_LEFT, ChannelInfo { azimuth_deg: Some(-30), name: "FL" }),
        (SPEAKER_FRONT_RIGHT, ChannelInfo { azimuth_deg: Some(30), name: "FR" }),
        (SPEAKER_FRONT_CENTER, ChannelInfo { azimuth_deg: Some(0), name: "FC" }),
        (SPEAKER_LOW_FREQUENCY, ChannelInfo { azimuth_deg: None, name: "LFE" }),
        (SPEAKER_BACK_LEFT, ChannelInfo { azimuth_deg: Some(back_left), name: "BL" }),
        (SPEAKER_BACK_RIGHT, ChannelInfo { azimuth_deg: Some(back), name: "BR" }),
        (SPEAKER_FRONT_LEFT_OF_CENTER, ChannelInfo { azimuth_deg: Some(-15), name: "FLC" }),
        (SPEAKER_FRONT_RIGHT_OF_CENTER, ChannelInfo { azimuth_deg: Some(15), name: "FRC" }),
        (SPEAKER_BACK_CENTER, ChannelInfo { azimuth_deg: Some(180), name: "BC" }),
        (SPEAKER_SIDE_LEFT, ChannelInfo { azimuth_deg: Some(-90), name: "SL" }),
        (SPEAKER_SIDE_RIGHT, ChannelInfo { azimuth_deg: Some(90), name: "SR" }),
        (SPEAKER_TOP_CENTER, ChannelInfo { azimuth_deg: None, name: "TC" }),
        (SPEAKER_TOP_FRONT_LEFT, ChannelInfo { azimuth_deg: None, name: "TFL" }),
        (SPEAKER_TOP_FRONT_CENTER, ChannelInfo { azimuth_deg: None, name: "TFC" }),
        (SPEAKER_TOP_FRONT_RIGHT, ChannelInfo { azimuth_deg: None, name: "TFR" }),
        (SPEAKER_TOP_BACK_LEFT, ChannelInfo { azimuth_deg: None, name: "TBL" }),
        (SPEAKER_TOP_BACK_CENTER, ChannelInfo { azimuth_deg: None, name: "TBC" }),
        (SPEAKER_TOP_BACK_RIGHT, ChannelInfo { azimuth_deg: None, name: "TBR" }),
    ];
    t
}

/// The layout a non-zero mask describes: the speakers it names, in bit
/// order, cut to the channel count or padded with directionless unknowns.
fn masked(mask: u32, channels: usize) -> (layout: Vec<ChannelInfo>)
    ensures
        layout@ == masked_layout(mask, channels as nat),
{
    let back: i16 = if mask & (SPEAKER_SIDE_LEFT | SPEAKER_SIDE_RIGHT) != 0 {
        135
    } else {
        110
    };
    assert(SPEAKER_SIDE_LEFT | SPEAKER_SIDE_RIGHT == 0x600u32) by (bit_vector);
    let table = speaker_table(back);
    let mut named: Vec<ChannelInfo> = Vec::new();
    let mut k: usize = 0;
    while k < 18
        invariant
            k <= 18,
            back == back_azimuth(mask),
            table@.len() == 18,
            forall|j: int|
                0 <= j < 18 ==> table@[j].0 == speaker_bits()[j] && table@[j].1 == speaker_roles(
                    back,
                )[j],
            named@ == named_speakers(mask, back, k as nat),
        decreases 18 - k,
    {
        let (bit, info) = table[k];
        if mask & bit != 0 {
            named.push(info);
        }
        k = k + 1;
    }
    let ghost all = named@;
    let mut layout: Vec<ChannelInfo> = Vec::new();
    let mut i: usize = 0;
    while i < channels
        invariant
            i <= channels,
            named@ == all,
            layout@ =~= fit_to(all, i as nat),
        decreases channels - i,
    {
        if i < named.len() {
            layout.push(named[i]);
        } else {
            layout.push(ChannelInfo { azimuth_deg: None, name: "?" });
        }
        i = i + 1;
    }
    layout
}

/// Speaker azimuths, in mask-bit order — which is the order the endpoint
/// interleaves them.
///
/// A mask that names fewer speakers than the stream has channels is treated as
/// naming the surplus as directionless; one that names more is cut to the
/// channel count. A zero mask falls back to the channel count.
pub fn channel_layout(mask: u32, channels: usize) -> (layout: Vec<ChannelInfo>)
    ensures
        layout@ == spec_channel_layout(mask, channels as nat),
{
    if mask == 0 {
        return default_layout(channels);
    }
    masked(mask, channels)
}

/// Layout for a stream that declares no mask, inferred from channel count.
fn default_layout(channels: usize) -> (layout: Vec<ChannelInfo>)
    ensures
        layout@ == spec_channel_layout(0, channels as nat),
{
    match channels {
        1 => {
            let v = vec![ChannelInfo { azimuth_deg: Some(0), name: "M" }];
            v
        },
        2 => masked(MASK_STEREO, 2),
        4 => masked(MASK_QUAD, 4),
        6 => masked(MASK_5_1, 6),
        8 => masked(MASK_7_1, 8),
        n => masked_unknown(n),
    }
}

fn masked_unknown(n: usize) -> (layout: Vec<ChannelInfo>)
    ensures
        layout@ == fit_to(Seq::empty(), n as nat),
{
    let mut layout: Vec<ChannelInfo> = Vec::new();
    let mut i: usize = 0;
    while i < n
        invariant
            i <= n,
            layout@ =~= fit_to(Seq::empty(), i as nat),
        decreases n - i,
    {
        layout.push(ChannelInfo { azimuth_deg: None, name: "?" });
        i = i + 1;
    }
    layout
}

/// Human-readable layout name for the UI.
pub fn layout_name(mask: u32, channels: usize) -> (name: &'static str)
    ensures
        name@ == (if channels == 1 {
            "mono"@
        } else if (mask == 0x3 || mask == 0) && channels == 2 {
            "stereo"@
        } else if (mask == 0x33 || mask == 0) && channels == 4 {
            "quad"@
        } else if (mask == 0x3f || mask == 0) && channels == 6 {
            "5.1"@
        } else if (mask == 0x63f || mask == 0) && channels == 8 {
            "7.1"@
        } else {
            "custom"@
        }),
{
    match (mask, channels) {
        (_, 1) => "mono",
        (MASK_STEREO, 2) | (0, 2) => "stereo",
        (MASK_QUAD, 4) | (0, 4) => "quad",
        (MASK_5_1, 6) | (0, 6) => "5.1",
        (MASK_7_1, 8) | (0, 8) => "7.1",
        _ => "custom",
    }
}

/// The speaker mask a synthetic source of `channels` channels is described
/// with: stereo for two, 7.1 for eight, and none otherwise.
pub fn synthetic_mask(channels: usize) -> (mask: u32)
    ensures
        mask == (if channels == 2 {
            MASK_STEREO
        } else if channels == 8 {
            MASK_7_1
        } else {
            0
        }),
{
    match channels {
        2 => MASK_STEREO,
        8 => MASK_7_1,
        _ => 0,
    }
}

/// A layout has exactly one entry per channel, whatever the mask claims:
/// a mask naming fewer speakers is padded, one naming more is cut.
pub proof fn law_one_entry_per_channel(mask: u32, channels: nat)
    ensures
        spec_channel_layout(mask, channels).len() == channels,
{
}

/// The positions, in mask-bit order, of the speaker bits set among the first
/// `n`.
pub open spec fn set_bits(mask: u32, n: nat) -> Seq<int>
    decreases n,
{
    if n == 0 {
        Seq::empty()
    } else {
        let earlier = set_bits(mask, (n - 1) as nat);
        if mask & speaker_bits()[n - 1] != 0 {
            earlier.push(n - 1)
        } else {
            earlier
        }
    }
}

/// The speakers a mask names are the roles of its set bits, and those bits
/// are listed once each, in increasing order.
proof fn lemma_named_speakers_follow_set_bits(mask: u32, back: i16, n: nat)
    requires
        n <= 18,
    ensures
        named_speakers(mask, back, n).len() == set_bits(mask, n).len(),
        forall|i: int|
            0 <= i < set_bits(mask, n).len() ==> #[trigger] named_speakers(mask, back, n)[i]
                == speaker_roles(back)[set_bits(mask, n)[i]],
        forall|i: int|
            0 <= i < set_bits(mask, n).len() ==> 0 <= #[trigger] set_bits(mask, n)[i] < n,
        forall|i: int, j: int|
            0 <= i < j < set_bits(mask, n).len() ==> set_bits(mask, n)[i] < set_bits(mask, n)[j],
        forall|k: int|
            0 <= k < n ==> (mask & #[trigger] speaker_bits()[k] != 0 <==> set_bits(mask, n).contains(k)),
    decreases n,
{
    if n > 0 {
        let m = (n - 1) as nat;
        lemma_named_speakers_follow_set_bits(mask, back, m);
        let earlier = set_bits(mask, m);
        assert forall|k: int| 0 <= k < n implies (mask & #[trigger] speaker_bits()[k] != 0
            <==> set_bits(mask, n).contains(k)) by {
            if k < m {
                if mask & speaker_bits()[k] != 0 {
                    let w = choose|w: int| 0 <= w < earlier.len() && earlier[w] == k;
                    assert(set_bits(mask, n)[w] == k);
                }
                if set_bits(mask, n).contains(k) {
                    let w = choose|w: int| 0 <= w < set_bits(mask, n).len() && set_bits(mask, n)[w] == k;
                    if w < earlier.len() {
                        assert(earlier[w] == k);
                    }
                }
            } else {
                if mask & speaker_bits()[k] != 0 {
                    assert(set_bits(mask, n)[earlier.len() as int] == k);
                }
                if set_bits(mask, n).contains(k) {
                    let w = choose|w: int| 0 <= w < set_bits(mask, n).len() && set_bits(mask, n)[w] == k;
                    assert(w >= earlier.len());
                }
            }
        }
    }
}

/// What a mask lays out: the speakers whose bits it sets, in bit order, one
/// per channel, cut to the channel count or padded with directionless
/// unknowns. LFE and the height speakers carry no direction; the backs sit at
/// ±135° when a side speaker is present and at ±110° otherwise.
pub proof fn law_the_mask_names_the_channels(mask: u32, channels: nat)
    requires
        mask != 0,
    ensures
        ({
            let layout = spec_channel_layout(mask, channels);
            let bits = set_bits(mask, 18);
            let back: int = if mask & (SPEAKER_SIDE_LEFT | SPEAKER_SIDE_RIGHT) != 0 {
                135
            } else {
                110
            };
            &&& layout.len() == channels
            &&& forall|i: int, j: int| 0 <= i < j < bits.len() ==> bits[i] < bits[j]
            &&& forall|k: int|
                0 <= k < 18 ==> (mask & #[trigger] speaker_bits()[k] != 0 <==> bits.contains(k))
            &&& forall|i: int|
                0 <= i < channels && i < bits.len() ==> #[trigger] layout[i]
                    == speaker_roles(back_azimuth(mask))[bits[i]]
            &&& forall|i: int| bits.len() <= i < channels ==> #[trigger] layout[i] == unknown_channel()
            &&& forall|i: int|
                0 <= i < channels && i < bits.len() ==> {
                    let k = bits[i];
                    &&& (k == 3 || k >= 11) ==> (#[trigger] layout[i]).azimuth_deg is None
                    &&& k == 4 ==> layout[i].azimuth_deg == Some((-back) as i16)
                    &&& k == 5 ==> layout[i].azimuth_deg == Some(back as i16)
                }
        }),
{
    let back = back_azimuth(mask);
    lemma_named_speakers_follow_set_bits(mask, back, 18);
    assert(SPEAKER_SIDE_LEFT | SPEAKER_SIDE_RIGHT == 0x600u32) by (bit_vector);
    let roles = speaker_roles(back);
    assert forall|k: int| 0 <= k < 18 && (k == 3 || k >= 11) implies (#[trigger] roles[k]).azimuth_deg is None by {
        assert(roles[3].azimuth_deg is None);
        assert(roles[11].azimuth_deg is None);
        assert(roles[12].azimuth_deg is None);
        assert(roles[13].azimuth_deg is None);
        assert(roles[14].azimuth_deg is None);
        assert(roles[15].azimuth_deg is None);
        assert(roles[16].azimuth_deg is None);
        assert(roles[17].azimuth_deg is None);
    }
}

/// A stream that declares no mask is laid out by its channel count: mono is
/// one channel ahead, two, four, six and eight channels are stereo, quad, 5.1
/// and 7.1, and any other count is all unknown channels.
pub proof fn law_a_maskless_stream_is_laid_out_by_its_count(channels: nat)
    ensures
        channels == 1 ==> spec_channel_layout(0, channels) == seq![ChannelInfo { azimuth_deg: Some(0i16), name: "M" }],
        channels == 2 ==> spec_channel_layout(0, channels) == spec_channel_layout(MASK_STEREO, 2),
        channels == 4 ==> spec_channel_layout(0, channels) == spec_channel_layout(MASK_QUAD, 4),
        channels == 6 ==> spec_channel_layout(0, channels) == spec_channel_layout(MASK_5_1, 6),
        channels == 8 ==> spec_channel_layout(0, channels) == spec_channel_layout(MASK_7_1, 8),
        channels != 1 && channels != 2 && channels != 4 && channels != 6 && channels != 8
            ==> spec_channel_layout(0, channels) == Seq::new(channels, |i: int| unknown_channel()),
{
    if channels != 1 && channels != 2 && channels != 4 && channels != 6 && channels != 8 {
        assert(spec_channel_layout(0, channels) =~= Seq::new(channels, |i: int| unknown_channel()));
    }
}

/// The format tag of integer PCM.
pub const WAVE_FORMAT_PCM: u16 = 1;

/// The format tag of IEEE floating point.
pub const WAVE_FORMAT_IEEE_FLOAT: u16 = 3;

/// The format tag that defers to an extensible subformat.
pub const WAVE_FORMAT_EXTENSIBLE: u16 = 0xFFFE;

/// What an extensible format's subformat names.
#[derive(Debug, Clone, Copy, PartialEq, Eq, Structural)]
pub enum WaveSubFormat {
    Pcm,
    IeeeFloat,
    /// Any other subformat.
    Other,
}

/// The part of a header that only an extensible format has.
#[derive(Debug, Clone, Copy, PartialEq, Eq, Structural)]
pub struct Extensible {
    pub sub_format: WaveSubFormat,
    pub channel_mask: u32,
}

/// The mix format an endpoint reports, as its header fields give it.
#[derive(Debug, Clone, Copy, PartialEq, Eq, Structural)]
pub struct WaveHeader {
    pub format_tag: u16,
    pub channels: u16,
    pub samples_per_sec: u32,
    pub block_align: u16,
    /// The subformat and speaker mask, present when the tag is extensible.
    pub extensible: Option<Extensible>,
}

/// A negotiated stream's shape.
#[derive(Debug, Clone, Copy, PartialEq, Eq, Structural)]
pub struct StreamShape {
    pub sample_rate: u32,
    pub channels: usize,
    pub channel_mask: u32,
    pub sample_format: SampleFormat,
}

/// Why an endpoint's format cannot be captured.
#[derive(Debug, Clone, Copy, PartialEq, Eq, Structural)]
pub enum WaveFormatError {
    ZeroChannels,
    /// The extensible subformat is neither PCM nor float.
    UnsupportedSubformat,
    UnsupportedTag(u16),
    /// No sample format has this container size for this kind of sample.
    UnsupportedLayout { container_bytes: usize, is_float: bool },
}

/// The stream shape an endpoint's header describes, or why it cannot be
/// captured. The container size is the block alignment over the channel
/// count; an extensible header's subformat decides float or integer and
/// carries the speaker mask, while a plain one has no mask.
pub open spec fn spec_describe_wave(h: WaveHeader) -> Result<StreamShape, WaveFormatError> {
    if h.channels == 0 {
        Err(WaveFormatError::ZeroChannels)
    } else {
        let container = (h.block_align / h.channels) as usize;
        let kind: Result<(bool, u32), WaveFormatError> = if h.format_tag == WAVE_FORMAT_EXTENSIBLE {
            match h.extensible {
                Some(Extensible { sub_format: WaveSubFormat::IeeeFloat, channel_mask }) => Ok(
                    (true, channel_mask),
                ),
                Some(Extensible { sub_format: WaveSubFormat::Pcm, channel_mask }) => Ok(
                    (false, channel_mask),
                ),
                _ => Err(WaveFormatError::UnsupportedSubformat),
            }
        } else if h.format_tag == WAVE_FORMAT_IEEE_FLOAT {
            Ok((true, 0u32))
        } else if h.format_tag == WAVE_FORMAT_PCM {
            Ok((false, 0u32))
        } else {
            Err(WaveFormatError::UnsupportedTag(h.format_tag))
        };
        match kind {
            Err(e) => Err(e),
            Ok((is_float, mask)) => match spec_classify(container, is_float) {
                Some(f) => Ok(
                    StreamShape {
                        sample_rate: h.samples_per_sec,
                        channels: h.channels as usize,
                        channel_mask: mask,
                        sample_format: f,
                    },
                ),
                None => Err(WaveFormatError::UnsupportedLayout { container_bytes: container, is_float }),
            },
        }
    }
}

/// Whether a header names float samples: the float tag, or the extensible
/// tag with a float subformat.
pub open spec fn names_float(h: WaveHeader) -> bool {
    h.format_tag == WAVE_FORMAT_IEEE_FLOAT || (h.format_tag == WAVE_FORMAT_EXTENSIBLE
        && h.extensible is Some && h.extensible->0.sub_format == WaveSubFormat::IeeeFloat)
}

/// Whether a header names integer samples: the PCM tag, or the extensible
/// tag with a PCM subformat.
pub open spec fn names_integer(h: WaveHeader) -> bool {
    h.format_tag == WAVE_FORMAT_PCM || (h.format_tag == WAVE_FORMAT_EXTENSIBLE
        && h.extensible is Some && h.extensible->0.sub_format == WaveSubFormat::Pcm)
}

/// A header is read as it says: a stream is float exactly when its tag or
/// subformat names float, so a float mix format is always read as `F32` and
/// never as an integer format. The shape keeps the header's rate and channel
/// count, its samples fill the container the block alignment gives each
/// channel, and only an extensible header carries a speaker mask. A header
/// is refused exactly when it has no channels, names neither kind of sample,
/// or gives a container no format of its kind has: 4 bytes for float, and 2,
/// 3 or 4 for integers.
pub proof fn law_a_header_is_read_as_it_says(h: WaveHeader)
    ensures
        ({
            let container = if h.channels > 0 {
                h.block_align / h.channels
            } else {
                0
            };
            let r = spec_describe_wave(h);
            &&& r is Ok <==> (h.channels > 0 && ((names_float(h) && container == 4) || (
            names_integer(h) && 2 <= container <= 4)))
            &&& r matches Ok(shape) ==> {
                &&& (shape.sample_format == SampleFormat::F32 <==> names_float(h))
                &&& shape.sample_format.spec_bytes_per_sample() == container
                &&& shape.sample_rate == h.samples_per_sec
                &&& shape.channels == h.channels
                &&& shape.channel_mask == (if h.format_tag == WAVE_FORMAT_EXTENSIBLE {
                    h.extensible->0.channel_mask
                } else {
                    0
                })
            }
            &&& r matches Err(WaveFormatError::UnsupportedLayout { container_bytes, is_float })
                ==> is_float == names_float(h) && container_bytes == container
        }),
{
}

/// Read an endpoint's mix format into a stream shape.
pub fn describe_wave_format(h: &WaveHeader) -> (r: Result<StreamShape, WaveFormatError>)
    ensures
        r == spec_describe_wave(*h),
{
    if h.channels == 0 {
        return Err(WaveFormatError::ZeroChannels);
    }
    let container: usize = (h.block_align / h.channels) as usize;
    let (is_float, mask) = if h.format_tag == WAVE_FORMAT_EXTENSIBLE {
        match h.extensible {
            Some(Extensible { sub_format: WaveSubFormat::IeeeFloat, channel_mask }) => (
                true,
                channel_mask,
            ),
            Some(Extensible { sub_format: WaveSubFormat::Pcm, channel_mask }) => (
                false,
                channel_mask,
            ),
            _ => {
                return Err(WaveFormatError::UnsupportedSubformat);
            },
        }
    } else if h.format_tag == WAVE_FORMAT_IEEE_FLOAT {
        (true, 0u32)
    } else if h.format_tag == WAVE_FORMAT_PCM {
        (false, 0u32)
    } else {
        return Err(WaveFormatError::UnsupportedTag(h.format_tag));
    };
    match classify(container, is_float) {
        Some(f) => Ok(
            StreamShape {
                sample_rate: h.samples_per_sec,
                channels: h.channels as usize,
                channel_mask: mask,
                sample_format: f,
            },
        ),
        None => Err(WaveFormatError::UnsupportedLayout { container_bytes: container, is_float }),
    }
}

} // verus!
