//! Spectrogram rows and the detection strip under the waterfall.

use vstd::prelude::*;

use crate::ui::overlay::{lit, Rung};

verus! {

/// How many entries of `s` are at most `v`.
pub open spec fn count_at_most(s: Seq<u8>, v: int) -> nat
    decreases s.len(),
{
    if s.len() == 0 {
        0
    } else {
        count_at_most(s.drop_last(), v) + if s.last() <= v {
            1nat
        } else {
            0nat
        }
    }
}

/// How many entries of `s` equal `v`.
pub open spec fn count_equal(s: Seq<u8>, v: int) -> nat
    decreases s.len(),
{
    if s.len() == 0 {
        0
    } else {
        count_equal(s.drop_last(), v) + if s.last() == v {
            1nat
        } else {
            0nat
        }
    }
}

/// The median of a row: the smallest value that more than half the row is
/// at or below, and 0 for an empty row.
pub open spec fn is_row_median(s: Seq<u8>, m: u8) -> bool {
    if s.len() == 0 {
        m == 0
    } else {
        &&& count_at_most(s, m as int) > s.len() / 2
        &&& forall|w: int| 0 <= w < m ==> count_at_most(s, w) <= s.len() / 2
    }
}

proof fn lemma_counts(s: Seq<u8>, v: int)
    ensures
        count_at_most(s, v) == count_at_most(s, v - 1) + count_equal(s, v),
        count_equal(s, v) <= s.len(),
        count_at_most(s, v) <= s.len(),
        v < 0 ==> count_at_most(s, v) == 0,
        v >= 255 ==> count_at_most(s, v) == s.len(),
    decreases s.len(),
{
    if s.len() > 0 {
        lemma_counts(s.drop_last(), v);
    }
}

/// Median of a row, via a 256-bin histogram: the values are already
/// quantized, so this is linear rather than a sort.
pub fn row_median(row: &[u8]) -> (m: u8)
    requires
        row@.len() <= u32::MAX,
    ensures
        is_row_median(row@, m),
{
    if row.len() == 0 {
        return 0;
    }
    let ghost s = row@;
    let mut counts: Vec<u32> = Vec::new();
    let mut b: usize = 0;
    while b < 256
        invariant
            b <= 256,
            counts@.len() == b,
            forall|v: int| 0 <= v < b ==> counts@[v] == 0,
        decreases 256 - b,
    {
        counts.push(0);
        b = b + 1;
    }
    assert forall|v: int| 0 <= v < 256 implies counts@[v] == count_equal(s.take(0), v) by {
        assert(s.take(0).len() == 0);
    }
    let mut i: usize = 0;
    while i < row.len()
        invariant
            i <= row@.len() <= u32::MAX,
            s == row@,
            counts@.len() == 256,
            forall|v: int| 0 <= v < 256 ==> counts@[v] == count_equal(s.take(i as int), v),
        decreases row.len() - i,
    {
        let x = row[i];
        proof {
            lemma_counts(s.take(i as int), x as int);
            assert(s.take(i + 1).drop_last() =~= s.take(i as int));
        }
        let c = counts[x as usize];
        counts.set(x as usize, c + 1);
        proof {
            assert forall|v: int| 0 <= v < 256 implies counts@[v] == count_equal(
                s.take(i + 1),
                v,
            ) by {
                assert(s.take(i + 1).last() == x);
            }
        }
        i = i + 1;
    }
    assert(s.take(row.len() as int) =~= s);
    let target: u32 = (row.len() as u32) / 2;
    let mut acc: u32 = 0;
    let mut value: usize = 0;
    proof {
        lemma_counts(s, -1);
    }
    while value < 256
        invariant
            value <= 256,
            s == row@,
            s.len() <= u32::MAX,
            s.len() > 0,
            target == s.len() / 2,
            counts@.len() == 256,
            forall|v: int| 0 <= v < 256 ==> counts@[v] == count_equal(s, v),
            acc == count_at_most(s, value - 1),
            acc <= target,
            forall|w: int| 0 <= w < value ==> count_at_most(s, w) <= s.len() / 2,
        decreases 256 - value,
    {
        proof {
            lemma_counts(s, value as int);
        }
        acc = acc + counts[value];
        if acc > target {
            return value as u8;
        }
        value = value + 1;
    }
    proof {
        lemma_counts(s, 255);
    }
    255
}

/// `slot` after evidence reaching `rung` falls in it: the stronger of the
/// two.
pub open spec fn stronger(slot: Option<Rung>, rung: Rung) -> Option<Rung> {
    match slot {
        Some(s) => if rung.spec_rank() > s.spec_rank() {
            Some(rung)
        } else {
            slot
        },
        None => Some(rung),
    }
}

/// Mark a detection reaching `rung` across the strip's slots `from ..= to`.
/// Each slot keeps the strongest rung that fell in it, so a brief detection
/// in a mostly quiet slice is not lost.
pub fn paint_span(slots: &mut Vec<Option<Rung>>, from: usize, to: usize, rung: Rung)
    ensures
        final(slots)@.len() == old(slots)@.len(),
        forall|k: int|
            0 <= k < old(slots)@.len() ==> final(slots)@[k] == if from <= k <= to {
                stronger(old(slots)@[k], rung)
            } else {
                old(slots)@[k]
            },
        forall|k: int| 0 <= k < old(slots)@.len() && from <= k <= to ==> lit(final(slots)@[k], rung),
{
    let mut k: usize = from;
    while k < slots.len() && k <= to
        invariant
            from <= k,
            k == from || k <= to + 1,
            slots@.len() == old(slots)@.len(),
            forall|m: int|
                0 <= m < old(slots)@.len() ==> slots@[m] == if from <= m < k {
                    stronger(old(slots)@[m], rung)
                } else {
                    old(slots)@[m]
                },
        decreases slots.len() - k,
    {
        let raise = match slots[k] {
            Some(s) => rung.rank() > s.rank(),
            None => true,
        };
        if raise {
            slots.set(k, Some(rung));
        }
        k = k + 1;
    }
}

} // verus!
