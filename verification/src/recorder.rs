//! The trajectory recorder: fixed-stride snapshot retention and the
//! body-indexed trace colors of the rendering boundary.

use vstd::prelude::*;
use crate::engine::Snapshot;
use crate::fp::{mul_bits, round_i32_bits, fmul, fround_i32};

verus! {

/// Bit pattern of 100.0, the simulation-to-pixel scale factor.
pub const PIXEL_SCALE_BITS: u64 = 0x4059000000000000;

/// Seconds of animation the default rendering covers.
pub const ANIMATION_LENGTH_SECONDS: u32 = 60;

/// Frames per second of the default rendering.
pub const FRAMES_PER_SECOND: u32 = 60;

/// The sampling stride: a snapshot is retained when its step index is
/// divisible by `step_count / (seconds * fps)` (integer division).
pub fn stride(step_count: u32, seconds: u32, fps: u32) -> (r: u32)
    requires
        seconds * fps > 0,
        seconds * fps <= u32::MAX,
    ensures
        r == step_count as int / (seconds * fps),
{
    step_count / (seconds * fps)
}

/// The snapshots retained by stride sampling: those whose step index is
/// divisible by `period`, in their original order.
pub open spec fn retained_spec(s: Seq<Snapshot>, period: u32) -> Seq<Snapshot>
    decreases s.len(),
{
    if s.len() == 0 {
        Seq::empty()
    } else {
        let prefix = retained_spec(s.drop_last(), period);
        if s.last().step % period == 0 {
            prefix.push(s.last())
        } else {
            prefix
        }
    }
}

/// Retain every snapshot whose step index is divisible by `period`,
/// keeping their order; step 0 is always divisible, so the first
/// snapshot of a run is always retained.
pub fn retain(snaps: &Vec<Snapshot>, period: u32) -> (r: Vec<Snapshot>)
    requires
        period > 0,
    ensures
        r@ == retained_spec(snaps@, period),
{
    let mut out: Vec<Snapshot> = Vec::new();
    let mut i: usize = 0;
    while i < snaps.len()
        invariant
            i <= snaps@.len(),
            period > 0,
            out@ == retained_spec(snaps@.subrange(0, i as int), period),
        decreases snaps@.len() - i,
    {
        let s = snaps[i];
        if s.step % period == 0 {
            out.push(s);
        }
        proof {
            assert(snaps@.subrange(0, i + 1 as int).drop_last() =~= snaps@.subrange(0, i as int));
            assert(snaps@.subrange(0, i + 1 as int).last() == snaps@[i as int]);
        }
        i = i + 1;
    }
    proof {
        assert(snaps@.subrange(0, snaps@.len() as int) =~= snaps@);
    }
    out
}

/// Stride sampling always keeps the first snapshot when its step index
/// is divisible by the period, and keeps it first.
pub proof fn lemma_retained_keeps_first(s: Seq<Snapshot>, period: u32)
    requires
        s.len() > 0,
        s[0].step % period == 0,
    ensures
        retained_spec(s, period).len() > 0,
        retained_spec(s, period)[0] == s[0],
    decreases s.len(),
{
    if s.len() == 1 {
        assert(s.last() == s[0]);
        assert(s.drop_last().len() == 0);
        assert(retained_spec(s.drop_last(), period) == Seq::<Snapshot>::empty());
        assert(retained_spec(s, period) == Seq::<Snapshot>::empty().push(s[0]));
    } else {
        assert(s.drop_last()[0] == s[0]);
        lemma_retained_keeps_first(s.drop_last(), period);
        if s.last().step % period == 0 {
            assert(retained_spec(s, period) == retained_spec(s.drop_last(), period).push(s.last()));
            assert(retained_spec(s, period)[0] == retained_spec(s.drop_last(), period)[0]);
        }
    }
}

/// Every retained snapshot has a step index divisible by the period.
pub proof fn lemma_retained_divisible(s: Seq<Snapshot>, period: u32)
    ensures
        forall|k: int|
            0 <= k < retained_spec(s, period).len() ==> (#[trigger] retained_spec(s, period)[k]).step
                % period == 0,
    decreases s.len(),
{
    if s.len() > 0 {
        lemma_retained_divisible(s.drop_last(), period);
        let prefix = retained_spec(s.drop_last(), period);
        if s.last().step % period == 0 {
            assert(retained_spec(s, period) == prefix.push(s.last()));
            assert forall|k: int| 0 <= k < retained_spec(s, period).len() implies (
            #[trigger] retained_spec(s, period)[k]).step % period == 0 by {
                if k < prefix.len() {
                    assert(retained_spec(s, period)[k] == prefix[k]);
                } else {
                    assert(retained_spec(s, period)[k] == s.last());
                }
            }
        } else {
            assert(retained_spec(s, period) == prefix);
        }
    }
}

/// For positive `m`, the quotient `m / p` grows by one from `(m - 1) / p`
/// exactly at the multiples of `p`.
proof fn lemma_div_step(m: int, p: int)
    requires
        m >= 1,
        p >= 1,
    ensures
        m / p == (m - 1) / p + if m % p == 0 {
            1int
        } else {
            0int
        },
{
    vstd::arithmetic::div_mod::lemma_fundamental_div_mod(m, p);
    let q = m / p;
    let r = m % p;
    vstd::arithmetic::div_mod::lemma_remainder_lower(m, p);
    vstd::arithmetic::div_mod::lemma_remainder_upper(m, p);
    assert(0 <= r < p);
    if r == 0 {
        assert((q - 1) * p + (p - 1) == p * q - 1) by (nonlinear_arith);
        vstd::arithmetic::div_mod::lemma_fundamental_div_mod_converse_div(m - 1, p, q - 1, p - 1);
    } else {
        assert(q * p + (r - 1) == p * q + r - 1) by (nonlinear_arith);
        vstd::arithmetic::div_mod::lemma_fundamental_div_mod_converse_div(m - 1, p, q, r - 1);
    }
}

/// Exactly one snapshot is retained per started period: of `n > 0`
/// snapshots carrying consecutive step indices from 0, stride sampling
/// with period `p` retains `(n - 1) / p + 1` snapshots.
pub proof fn lemma_retained_count(s: Seq<Snapshot>, period: u32)
    requires
        period > 0,
        forall|k: int| 0 <= k < s.len() ==> (#[trigger] s[k]).step == k,
    ensures
        retained_spec(s, period).len() == if s.len() == 0 {
            0int
        } else {
            (s.len() - 1) / (period as int) + 1
        },
    decreases s.len(),
{
    if s.len() > 0 {
        let n = s.len() as int;
        let p = period as int;
        assert(forall|k: int|
            0 <= k < s.drop_last().len() ==> (#[trigger] s.drop_last()[k]).step == k);
        lemma_retained_count(s.drop_last(), period);
        assert(s.last().step == n - 1);
        if n == 1 {
            vstd::arithmetic::div_mod::lemma_div_of0(p);
            assert(s.last().step % period == 0);
            assert(retained_spec(s, period).len() == 1);
        } else {
            lemma_div_step(n - 1, p);
            if s.last().step % period == 0 {
                assert((n - 1) % p == 0);
                assert(retained_spec(s, period).len() == retained_spec(s.drop_last(), period).len()
                    + 1);
            } else {
                assert((n - 1) % p != 0);
                assert(retained_spec(s, period).len() == retained_spec(
                    s.drop_last(),
                    period,
                ).len());
            }
        }
    }
}

/// The pixel coordinate a simulation coordinate maps to:
/// round(coordinate * 100), saturated to the representable pixel range.
pub open spec fn pixel_spec(c: u64) -> i32 {
    round_i32_bits(mul_bits(c, PIXEL_SCALE_BITS))
}

/// Map a position from simulation coordinates to the fixed pixel grid.
pub fn pixel_point(x: u64, y: u64) -> (p: (i32, i32))
    ensures
        p == (pixel_spec(x), pixel_spec(y)),
{
    (fround_i32(fmul(x, PIXEL_SCALE_BITS)), fround_i32(fmul(y, PIXEL_SCALE_BITS)))
}

/// A trace color of the rendering boundary.
#[derive(Clone, Copy, Debug, PartialEq, Eq, Structural)]
pub enum BodyColor {
    Blue,
    Green,
    Red,
    Black,
}

/// The color of a body's trajectory trace, by body index; any index past
/// the three bodies falls back to black.
pub open spec fn color_spec(index: int) -> BodyColor {
    if index == 0 {
        BodyColor::Blue
    } else if index == 1 {
        BodyColor::Green
    } else if index == 2 {
        BodyColor::Red
    } else {
        BodyColor::Black
    }
}

/// The trace color of the body with the given index.
pub fn trace_color(index: usize) -> (c: BodyColor)
    ensures
        c == color_spec(index as int),
{
    if index == 0 {
        BodyColor::Blue
    } else if index == 1 {
        BodyColor::Green
    } else if index == 2 {
        BodyColor::Red
    } else {
        BodyColor::Black
    }
}

} // verus!
