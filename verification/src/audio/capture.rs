//! Capture bookkeeping: keeping the analysis clock honest across holes in the
//! stream.
//!
//! Two distinct things can break the timeline, and they need distinct
//! handling:
//!
//! * **A discontinuity while packets are flowing**: the device dropped data.
//!   The stream position reported alongside each packet gives an exact frame
//!   count for the hole.
//! * **An idle loopback endpoint**: nothing is playing, so no packets arrive at
//!   all and the stream position simply stops advancing. Detected from
//!   wall-clock silence between packets.
//!
//! Both are reported as gaps, because downstream the distinction does not
//! matter: what matters is that the analysis clock keeps advancing, so a
//! 109.5-second period stays measurable across a quiet stretch.
//!
//! Times are nanoseconds on a monotonic clock.

use vstd::prelude::*;

use crate::capture_writer::elapsed;

verus! {

/// Callback and queue counters, reported periodically. Telemetry is best
/// effort and never blocks audio delivery.
#[derive(Debug, Clone, Copy, PartialEq, Eq, Structural)]
pub struct CaptureHealth {
    pub callbacks: u64,
    pub input_frames: u64,
    pub delivered_frames: u64,
    pub dropped_frames: u64,
    pub queue_full_events: u64,
    pub device_gap_frames: u64,
    pub largest_callback_frames: usize,
}

/// All counters at zero.
pub open spec fn zero_health() -> CaptureHealth {
    CaptureHealth {
        callbacks: 0,
        input_frames: 0,
        delivered_frames: 0,
        dropped_frames: 0,
        queue_full_events: 0,
        device_gap_frames: 0,
        largest_callback_frames: 0,
    }
}

impl Default for CaptureHealth {
    fn default() -> (h: Self)
        ensures
            h == zero_health(),
    {
        CaptureHealth {
            callbacks: 0,
            input_frames: 0,
            delivered_frames: 0,
            dropped_frames: 0,
            queue_full_events: 0,
            device_gap_frames: 0,
            largest_callback_frames: 0,
        }
    }
}

/// The longest span a duration can hold, in nanoseconds.
pub const MAX_DURATION_NANOS: u128 = 18_446_744_073_709_551_615_999_999_999;

/// `nanos` of audio at `rate` frames a second, rounded to the nearest frame
/// (halves away from zero).
pub open spec fn rounded_frames(nanos: int, rate: int) -> int {
    (2 * (nanos * rate) + 1_000_000_000) / 2_000_000_000
}

/// Whole frames in `nanos` of audio at `rate` frames a second.
pub open spec fn whole_frames(nanos: int, rate: int) -> int {
    nanos * rate / 1_000_000_000
}

/// `n`, or `usize::MAX` where it does not fit.
pub open spec fn saturate_usize(n: int) -> usize {
    if n > usize::MAX {
        usize::MAX
    } else {
        n as usize
    }
}

/// How many frames a span of `nanos` nanoseconds holds at the negotiated
/// sample rate, to the nearest frame.
pub fn duration_frames(nanos: u128, sample_rate: u32) -> (frames: usize)
    requires
        nanos <= MAX_DURATION_NANOS,
    ensures
        frames == saturate_usize(rounded_frames(nanos as int, sample_rate as int)),
{
    assert(nanos * sample_rate <= MAX_DURATION_NANOS * 0xffff_ffff) by (nonlinear_arith)
        requires
            nanos <= MAX_DURATION_NANOS,
            sample_rate <= 0xffff_ffffu32,
    ;
    let scaled: u128 = nanos * (sample_rate as u128);
    let rounded: u128 = (2 * scaled + 1_000_000_000) / 2_000_000_000;
    if rounded > usize::MAX as u128 {
        usize::MAX
    } else {
        rounded as usize
    }
}

/// Whole frames in `nanos` nanoseconds at the sample rate, rounded down.
pub fn idle_frames(nanos: u64, sample_rate: u32) -> (frames: usize)
    ensures
        frames == saturate_usize(whole_frames(nanos as int, sample_rate as int)),
{
    assert(nanos * sample_rate <= 0xffff_ffff_ffff_ffff * 0xffff_ffff) by (nonlinear_arith)
        requires
            nanos <= 0xffff_ffff_ffff_ffffu64,
            sample_rate <= 0xffff_ffffu32,
    ;
    let scaled: u128 = (nanos as u128) * (sample_rate as u128);
    let whole: u128 = scaled / 1_000_000_000;
    if whole > usize::MAX as u128 {
        usize::MAX
    } else {
        whole as usize
    }
}

/// How long an idle endpoint must stay quiet before silence is synthesized
/// to keep the timeline advancing.
pub const IDLE_THRESHOLD_NANOS: u64 = 250_000_000;

/// Packet queries made in one wake of the capture loop, at most. An endpoint
/// that keeps claiming data would otherwise pin the capture thread inside the
/// drain; shared-mode packets are about 10 ms, so this is some two seconds of
/// audio, far more than a healthy device ever queues.
pub const MAX_PACKETS_PER_WAKE: usize = 200;

/// Whether a wake that has already asked for `queried` packets may ask the
/// endpoint for another, or must yield.
pub fn may_query_packet(queried: usize) -> (more: bool)
    ensures
        more == (queried < MAX_PACKETS_PER_WAKE),
{
    queried < MAX_PACKETS_PER_WAKE
}

/// Follows a packet-driven stream: where the next packet should start, and
/// when the last one arrived.
pub struct PacketClock {
    expected_position: Option<u64>,
    last_packet_at: u64,
}

/// The hole before a packet at `position`, when the stream skipped ahead of
/// where the next packet was expected.
pub open spec fn discontinuity(expected: Option<u64>, position: u64) -> Option<usize> {
    match expected {
        Some(e) => if position > e {
            Some((position - e) as usize)
        } else {
            None
        },
        None => None,
    }
}

/// A hole is filled exactly: between the starts of two packets, the frames
/// of the first and the gap reported before the second add up to the
/// distance the device's stream position moved.
pub proof fn law_holes_are_filled_exactly(position: u64, frames: u32, next_position: u64)
    requires
        position + frames <= next_position,
        next_position - position - frames <= usize::MAX,
    ensures
        frames + match discontinuity(Some((position + frames) as u64), next_position) {
            Some(g) => g as int,
            None => 0,
        } == next_position - position,
{
}

impl PacketClock {
    /// The stream position the next packet should start at, once known.
    pub closed spec fn expected(&self) -> Option<u64> {
        self.expected_position
    }

    /// When audio last arrived.
    pub closed spec fn last_packet_at(&self) -> u64 {
        self.last_packet_at
    }

    /// A clock for a stream that opened at `now`.
    pub fn new(now: u64) -> (c: Self)
        ensures
            c.expected() is None,
            c.last_packet_at() == now,
    {
        PacketClock { expected_position: None, last_packet_at: now }
    }

    /// A packet of `frames` frames at device stream `position`. Returns the
    /// size of the hole before it, if the stream skipped ahead.
    pub fn on_packet(&mut self, position: u64, frames: u32) -> (gap: Option<usize>)
        requires
            frames > 0,
            position + frames <= u64::MAX,
        ensures
            gap == discontinuity(old(self).expected(), position),
            final(self).expected() == Some((position + frames) as u64),
            final(self).last_packet_at() == old(self).last_packet_at(),
    {
        let gap = match self.expected_position {
            Some(expected) => if position > expected {
                Some((position - expected) as usize)
            } else {
                None
            },
            None => None,
        };
        self.expected_position = Some(position + frames as u64);
        gap
    }

    /// The end of one wake of the capture loop at `now`. `got_audio` says
    /// whether any packet arrived during it. Returns the frames of silence to
    /// insert when the endpoint has been quiet for too long.
    ///
    /// After synthesized silence the device clock has stopped too, so the
    /// jump when packets resume is not treated as a dropout.
    pub fn end_wake(&mut self, got_audio: bool, now: u64, sample_rate: u32) -> (idle_gap: Option<usize>)
        ensures
            ({
                let quiet = elapsed(now, old(self).last_packet_at());
                let frames = saturate_usize(whole_frames(quiet, sample_rate as int));
                if got_audio {
                    &&& idle_gap is None
                    &&& final(self).last_packet_at() == now
                    &&& final(self).expected() == old(self).expected()
                } else if quiet >= IDLE_THRESHOLD_NANOS && frames > 0 {
                    &&& idle_gap == Some(frames)
                    &&& final(self).last_packet_at() == now
                    &&& final(self).expected() is None
                } else {
                    &&& idle_gap is None
                    &&& final(self).last_packet_at() == old(self).last_packet_at()
                    &&& final(self).expected() == old(self).expected()
                }
            }),
    {
        if got_audio {
            self.last_packet_at = now;
            return None;
        }
        let quiet: u64 = if now >= self.last_packet_at {
            now - self.last_packet_at
        } else {
            0
        };
        if quiet >= IDLE_THRESHOLD_NANOS {
            let frames = idle_frames(quiet, sample_rate);
            if frames > 0 {
                self.last_packet_at = now;
                self.expected_position = None;
                return Some(frames);
            }
        }
        None
    }
}

/// Jitter below this is ordinary timestamp and driver noise. A real missing
/// packet is much larger than two milliseconds.
pub const GAP_TOLERANCE_NANOS: u128 = 2_000_000;

/// What came of offering a message to the consumer without blocking.
#[derive(Debug, Clone, Copy, PartialEq, Eq, Structural)]
pub enum Delivery {
    Sent,
    /// The queue was full; the message was not taken.
    Full,
    /// Nobody is listening any more.
    Disconnected,
}

/// What a callback does after offering the pending gap.
#[derive(Debug, Clone, Copy, PartialEq, Eq, Structural)]
pub enum AfterGap {
    /// Go on to offer the packet's audio.
    OfferAudio,
    /// The packet was dropped; wait for the next callback.
    Skip,
    /// The consumer is gone: stop capturing.
    Stop,
}

/// The accounting of a callback-driven stream: the counters, and the frames
/// of timeline owed to the consumer because audio was lost on the way.
#[derive(Debug, Clone, Copy, PartialEq, Eq, Structural)]
pub struct CallbackLedger {
    /// Frames the consumer has not been told about yet.
    pub pending_gap: usize,
    pub health: CaptureHealth,
}

/// `a + b`, or `usize::MAX` where it does not fit.
pub open spec fn add_usize(a: usize, b: usize) -> usize {
    saturate_usize(a + b)
}

/// `a + b`, or `u64::MAX` where it does not fit.
pub open spec fn add_u64(a: u64, b: u64) -> u64 {
    if a + b > u64::MAX {
        u64::MAX
    } else {
        (a + b) as u64
    }
}

/// The frames owed for a packet captured `late_by` nanoseconds after it was
/// due, if that is more than jitter.
pub open spec fn late_frames(late_by: Option<u128>, rate: u32) -> usize {
    match late_by {
        Some(d) => if d > GAP_TOLERANCE_NANOS {
            saturate_usize(rounded_frames(d as int, rate as int))
        } else {
            0
        },
        None => 0,
    }
}

impl CallbackLedger {
    pub fn new() -> (l: Self)
        ensures
            l.pending_gap == 0,
            l.health == zero_health(),
    {
        CallbackLedger { pending_gap: 0, health: CaptureHealth::default() }
    }

    /// Account for a callback of `frames` frames. `late_by` is how long after
    /// its expected time the packet was captured, when the expected time is
    /// known and has passed.
    pub fn observe(&mut self, frames: usize, late_by: Option<u128>, sample_rate: u32)
        requires
            old(self).health.callbacks < u64::MAX,
            old(self).health.input_frames + frames <= u64::MAX,
            late_by matches Some(d) ==> d <= MAX_DURATION_NANOS,
        ensures
            ({
                let h = old(self).health;
                let missing = late_frames(late_by, sample_rate);
                &&& final(self).health == CaptureHealth {
                    callbacks: (h.callbacks + 1) as u64,
                    input_frames: (h.input_frames + frames) as u64,
                    largest_callback_frames: if frames > h.largest_callback_frames {
                        frames
                    } else {
                        h.largest_callback_frames
                    },
                    device_gap_frames: add_u64(h.device_gap_frames, missing as u64),
                    ..h
                }
                &&& final(self).pending_gap == add_usize(old(self).pending_gap, missing)
            }),
    {
        self.health.callbacks = self.health.callbacks + 1;
        self.health.input_frames = self.health.input_frames + frames as u64;
        if frames > self.health.largest_callback_frames {
            self.health.largest_callback_frames = frames;
        }
        let missing: usize = match late_by {
            Some(d) => if d > GAP_TOLERANCE_NANOS {
                duration_frames(d, sample_rate)
            } else {
                0
            },
            None => 0,
        };
        self.pending_gap = self.pending_gap.saturating_add(missing);
        self.health.device_gap_frames = self.health.device_gap_frames.saturating_add(
            missing as u64,
        );
    }

    /// The gap to announce before this callback's audio, if any.
    pub fn gap_to_send(&self) -> (gap: Option<usize>)
        ensures
            gap == (if self.pending_gap > 0 {
                Some(self.pending_gap)
            } else {
                None
            }),
    {
        if self.pending_gap > 0 {
            Some(self.pending_gap)
        } else {
            None
        }
    }

    /// What came of offering the pending gap, for a callback of `frames`
    /// frames. A full queue drops the packet, and its frames join the gap.
    pub fn gap_offered(&mut self, result: Delivery, frames: usize) -> (next: AfterGap)
        requires
            old(self).health.queue_full_events < u64::MAX,
        ensures
            ({
                let h = old(self).health;
                match result {
                    Delivery::Sent => {
                        &&& next == AfterGap::OfferAudio
                        &&& final(self).pending_gap == 0
                        &&& final(self).health == h
                    },
                    Delivery::Full => {
                        &&& next == AfterGap::Skip
                        &&& final(self).pending_gap == add_usize(old(self).pending_gap, frames)
                        &&& final(self).health == CaptureHealth {
                            queue_full_events: (h.queue_full_events + 1) as u64,
                            dropped_frames: add_u64(h.dropped_frames, frames as u64),
                            ..h
                        }
                    },
                    Delivery::Disconnected => {
                        &&& next == AfterGap::Stop
                        &&& *final(self) == *old(self)
                    },
                }
            }),
    {
        match result {
            Delivery::Sent => {
                self.pending_gap = 0;
                AfterGap::OfferAudio
            },
            Delivery::Full => {
                self.health.queue_full_events = self.health.queue_full_events + 1;
                self.health.dropped_frames = self.health.dropped_frames.saturating_add(
                    frames as u64,
                );
                self.pending_gap = self.pending_gap.saturating_add(frames);
                AfterGap::Skip
            },
            Delivery::Disconnected => AfterGap::Stop,
        }
    }

    /// What came of offering a callback's audio of `frames` frames. Returns
    /// whether capture should go on.
    pub fn audio_offered(&mut self, result: Delivery, frames: usize) -> (keep_going: bool)
        requires
            old(self).health.queue_full_events < u64::MAX,
            old(self).health.delivered_frames + frames <= u64::MAX,
        ensures
            ({
                let h = old(self).health;
                match result {
                    Delivery::Sent => {
                        &&& keep_going
                        &&& final(self).pending_gap == old(self).pending_gap
                        &&& final(self).health == CaptureHealth {
                            delivered_frames: (h.delivered_frames + frames) as u64,
                            ..h
                        }
                    },
                    Delivery::Full => {
                        &&& keep_going
                        &&& final(self).pending_gap == add_usize(old(self).pending_gap, frames)
                        &&& final(self).health == CaptureHealth {
                            queue_full_events: (h.queue_full_events + 1) as u64,
                            dropped_frames: add_u64(h.dropped_frames, frames as u64),
                            ..h
                        }
                    },
                    Delivery::Disconnected => {
                        &&& !keep_going
                        &&& *final(self) == *old(self)
                    },
                }
            }),
    {
        match result {
            Delivery::Sent => {
                self.health.delivered_frames = self.health.delivered_frames + frames as u64;
                true
            },
            Delivery::Full => {
                self.health.queue_full_events = self.health.queue_full_events + 1;
                self.health.dropped_frames = self.health.dropped_frames.saturating_add(
                    frames as u64,
                );
                self.pending_gap = self.pending_gap.saturating_add(frames);
                true
            },
            Delivery::Disconnected => false,
        }
    }
}

} // verus!
