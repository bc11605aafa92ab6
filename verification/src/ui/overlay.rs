//! The in-game overlay's lamps: a ladder of confidence, lowest rung first,
//! and what the border says when analysis is not running at all.

use vstd::prelude::*;

use crate::app::Status;
use crate::text::string_of;

verus! {

/// Why the overlay is asking to be looked at, when it is not a detection.
#[derive(Debug, Clone, Copy, PartialEq, Eq, Structural)]
pub enum OverlayAttention {
    /// Not detecting yet: starting, or still learning the background.
    NotReady,
    /// Broken: the audio endpoint is gone and nothing is being heard at all.
    Broken,
}

pub open spec fn spec_attention(status: Status) -> Option<OverlayAttention> {
    match status {
        Status::Starting | Status::Warming => Some(OverlayAttention::NotReady),
        Status::DeviceLost => Some(OverlayAttention::Broken),
        Status::Capturing | Status::NoSignal | Status::Anomaly => None,
    }
}

impl OverlayAttention {
    /// The states worth colouring the border for. `None` means running
    /// normally, whether or not anything has been detected.
    pub fn of(status: Status) -> (a: Option<OverlayAttention>)
        ensures
            a == spec_attention(status),
    {
        match status {
            Status::Starting | Status::Warming => Some(OverlayAttention::NotReady),
            Status::DeviceLost => Some(OverlayAttention::Broken),
            Status::Capturing | Status::NoSignal | Status::Anomaly => None,
        }
    }
}

/// How far the evidence goes, lowest rung first. Each rung is strictly
/// stronger evidence than the one below: something departed from the learned
/// background; it carries deliberate structure, keyed or drawn; it matches
/// something we can name.
#[derive(Debug, Clone, Copy, PartialEq, Eq, PartialOrd, Ord, Structural)]
pub enum Rung {
    Anomaly,
    Cypher,
    Signal,
}

impl Rung {
    /// The rung's place on the ladder, from the bottom.
    pub open spec fn spec_rank(self) -> nat {
        match self {
            Rung::Anomaly => 0,
            Rung::Cypher => 1,
            Rung::Signal => 2,
        }
    }

    pub fn rank(self) -> (r: u8)
        ensures
            r == self.spec_rank(),
    {
        match self {
            Rung::Anomaly => 0,
            Rung::Cypher => 1,
            Rung::Signal => 2,
        }
    }

    pub open spec fn spec_of(anomaly: bool, cypher: bool, signal: bool) -> Option<Rung> {
        if signal {
            Some(Rung::Signal)
        } else if cypher {
            Some(Rung::Cypher)
        } else if anomaly {
            Some(Rung::Anomaly)
        } else {
            None
        }
    }

    /// Highest rung the evidence reaches, if any.
    pub fn of(anomaly: bool, cypher: bool, signal: bool) -> (r: Option<Rung>)
        ensures
            r == Rung::spec_of(anomaly, cypher, signal),
    {
        if signal {
            Some(Rung::Signal)
        } else if cypher {
            Some(Rung::Cypher)
        } else if anomaly {
            Some(Rung::Anomaly)
        } else {
            None
        }
    }
}

/// Whether the lamp for `lamp` is lit when the evidence reaches `reached`:
/// the lamps light cumulatively, like a bar filling.
pub open spec fn lit(reached: Option<Rung>, lamp: Rung) -> bool {
    match reached {
        Some(r) => r.spec_rank() >= lamp.spec_rank(),
        None => false,
    }
}

/// The ladder is monotonic: a lit lamp implies every lamp below it is lit, a
/// lamp lights for any evidence at all, and each rung lights exactly when its
/// own or stronger evidence is present.
pub proof fn law_the_ladder_is_monotonic(anomaly: bool, cypher: bool, signal: bool)
    ensures
        ({
            let reached = Rung::spec_of(anomaly, cypher, signal);
            &&& lit(reached, Rung::Signal) ==> lit(reached, Rung::Cypher)
            &&& lit(reached, Rung::Cypher) ==> lit(reached, Rung::Anomaly)
            &&& reached is Some <==> (anomaly || cypher || signal)
            &&& lit(reached, Rung::Signal) <==> signal
            &&& lit(reached, Rung::Cypher) <==> (signal || cypher)
            &&& lit(reached, Rung::Anomaly) <==> (signal || cypher || anomaly)
        }),
{
}

/// The character for a decimal digit.
pub open spec fn digit_char(d: int) -> char {
    if d == 0 {
        '0'
    } else if d == 1 {
        '1'
    } else if d == 2 {
        '2'
    } else if d == 3 {
        '3'
    } else if d == 4 {
        '4'
    } else if d == 5 {
        '5'
    } else if d == 6 {
        '6'
    } else if d == 7 {
        '7'
    } else if d == 8 {
        '8'
    } else {
        '9'
    }
}

/// `n` written in decimal, most significant digit first.
pub open spec fn decimal(n: nat) -> Seq<char>
    decreases n,
{
    if n < 10 {
        seq![digit_char(n as int)]
    } else {
        decimal(n / 10).push(digit_char((n % 10) as int))
    }
}

fn digit(d: u64) -> (c: char)
    requires
        d < 10,
    ensures
        c == digit_char(d as int),
{
    match d {
        0 => '0',
        1 => '1',
        2 => '2',
        3 => '3',
        4 => '4',
        5 => '5',
        6 => '6',
        7 => '7',
        8 => '8',
        _ => '9',
    }
}

fn push_decimal(out: &mut Vec<char>, n: u64)
    ensures
        final(out)@ == old(out)@ + decimal(n as nat),
    decreases n,
{
    if n >= 10 {
        push_decimal(out, n / 10);
    }
    out.push(digit(n % 10));
    assert(out@ =~= old(out)@ + decimal(n as nat));
}

/// One mebibyte.
pub const MIB: u64 = 1_048_576;

/// Bytes as whole mebibytes, which is the only precision worth showing.
pub fn mib(bytes: u64) -> (s: String)
    ensures
        s@ == decimal((bytes / MIB) as nat) + seq![' ', 'M', 'B'],
{
    let mut v: Vec<char> = Vec::new();
    push_decimal(&mut v, bytes / MIB);
    v.push(' ');
    v.push('M');
    v.push('B');
    assert(v@ =~= decimal((bytes / MIB) as nat) + seq![' ', 'M', 'B']);
    string_of(&v)
}

} // verus!
