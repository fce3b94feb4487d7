//! Decimal numerals. The v1 and v2 dialects write ids and counts as decimal
//! floating-point literals and truncate them to the target integer width;
//! this module gives that truncation an exact arithmetic meaning and an
//! executable form that computes it with capped accumulators.

use vstd::prelude::*;

verus! {

/// Decimal digit bytes `'0'..='9'`.
pub open spec fn is_digit(c: u8) -> bool {
    48 <= c && c <= 57
}

/// Value accumulated by appending the digit bytes `ds` after an already
/// accumulated value `m`.
pub open spec fn dv_ext(m: nat, ds: Seq<u8>) -> nat
    decreases ds.len(),
{
    if ds.len() == 0 {
        m
    } else {
        (dv_ext(m, ds.drop_last()) * 10 + (ds.last() - 48)) as nat
    }
}

/// The natural number denoted by a most-significant-first sequence of
/// decimal digit bytes; the empty sequence denotes zero.
pub open spec fn digits_val(ds: Seq<u8>) -> nat {
    dv_ext(0, ds)
}

pub open spec fn pow10(e: nat) -> nat
    decreases e,
{
    if e == 0 {
        1
    } else {
        10 * pow10((e - 1) as nat)
    }
}

/// Magnitude of the integer part of the decimal literal `ip . fp × 10^e`,
/// truncated toward zero: shift the decimal point `e` places through the
/// digit string `ip + fp` and read the digits left of it.
pub open spec fn trunc_mag(ip: Seq<u8>, fp: Seq<u8>, e: int) -> nat {
    let ds = ip + fp;
    let p = ip.len() + e;
    if p <= 0 {
        0
    } else if p <= ds.len() {
        digits_val(ds.take(p))
    } else {
        digits_val(ds) * pow10((p - ds.len()) as nat)
    }
}

/// The signed magnitude cast to `i32` as a float-to-integer cast does:
/// truncation toward zero, saturating at the ends of the range.
pub open spec fn sat_i32(neg: bool, mag: nat) -> i32 {
    if neg {
        if mag >= 0x8000_0000 {
            i32::MIN
        } else {
            (0 - mag) as i32
        }
    } else {
        if mag >= 0x7FFF_FFFF {
            i32::MAX
        } else {
            mag as i32
        }
    }
}

/// The signed magnitude cast to `u64`: negative values clamp to zero,
/// overlarge ones to `u64::MAX`.
pub open spec fn sat_u64(neg: bool, mag: nat) -> u64 {
    if neg {
        0
    } else if mag >= 0xFFFF_FFFF_FFFF_FFFF {
        u64::MAX
    } else {
        mag as u64
    }
}

/// One above the largest magnitude the decoders must represent exactly.
pub const MAG_CAP: u128 = 0x1_0000_0000_0000_0000;

/// Cap for exponent accumulation; far above any possible digit-string
/// length, so a capped exponent still lands every comparison on the same
/// side as the exact one.
pub const EXP_CAP: u128 = 0x1_0000_0000_0000_0000_0000;

/// `mc` is `mag` whenever `mag` lies below `cap`, and `cap` itself above.
pub open spec fn capped(cap: u128, mc: u128, mag: nat) -> bool {
    if mag < cap {
        mc == mag
    } else {
        mc == cap
    }
}

/// Accumulates the digit bytes `s[a..b]` onto `mc0`, clamping at `cap`.
pub fn digits_acc(s: &[u8], a: usize, b: usize, cap: u128, mc0: u128, Ghost(m0): Ghost<nat>) -> (mc:
    u128)
    requires
        a <= b && b <= s@.len(),
        forall|k: int| a <= k < b ==> is_digit(s@[k]),
        1 <= cap <= EXP_CAP,
        capped(cap, mc0, m0),
    ensures
        capped(cap, mc, dv_ext(m0, s@.subrange(a as int, b as int))),
{
    let mut j: usize = a;
    let mut mc: u128 = mc0;
    while j < b
        invariant
            a <= j <= b <= s@.len(),
            forall|k: int| a <= k < b ==> is_digit(s@[k]),
            1 <= cap <= EXP_CAP,
            capped(cap, mc, dv_ext(m0, s@.subrange(a as int, j as int))),
        decreases b - j,
    {
        let d = s[j];
        proof {
            assert(s@.subrange(a as int, j + 1).drop_last() =~= s@.subrange(a as int, j as int));
        }
        let step: u128 = mc * 10 + ((d - 48) as u128);
        mc = if step > cap {
            cap
        } else {
            step
        };
        j = j + 1;
    }
    mc
}

/// Multiplies `mc0` by `10^k`, clamping at `cap`.
pub fn pow10_acc(mc0: u128, k: u64, cap: u128, Ghost(m0): Ghost<nat>) -> (mc: u128)
    requires
        1 <= cap <= EXP_CAP,
        capped(cap, mc0, m0),
    ensures
        capped(cap, mc, m0 * pow10(k as nat)),
{
    let mut j: u64 = 0;
    let mut mc: u128 = mc0;
    assert(m0 * pow10(0) == m0) by (nonlinear_arith)
        requires
            pow10(0) == 1,
    ;
    while j < k
        invariant
            j <= k,
            1 <= cap <= EXP_CAP,
            capped(cap, mc, m0 * pow10(j as nat)),
        decreases k - j,
    {
        proof {
            assert(pow10((j + 1) as nat) == 10 * pow10(j as nat));
            assert(m0 * (10 * pow10(j as nat)) == (m0 * pow10(j as nat)) * 10)
                by (nonlinear_arith);
        }
        let step: u128 = mc * 10;
        mc = if step > cap {
            cap
        } else {
            step
        };
        j = j + 1;
    }
    mc
}

/// Splitting a digit string splits its accumulated value.
pub proof fn lemma_dv_ext_concat(m: nat, a: Seq<u8>, b: Seq<u8>)
    ensures
        dv_ext(m, a + b) == dv_ext(dv_ext(m, a), b),
    decreases b.len(),
{
    if b.len() == 0 {
        assert(a + b =~= a);
    } else {
        lemma_dv_ext_concat(m, a, b.drop_last());
        assert((a + b).drop_last() =~= a + b.drop_last());
    }
}

pub proof fn lemma_pow10_pos(e: nat)
    ensures
        pow10(e) >= 1,
    decreases e,
{
    if e > 0 {
        lemma_pow10_pos((e - 1) as nat);
    }
}

pub proof fn lemma_pow10_mono(a: nat, b: nat)
    requires
        a <= b,
    ensures
        pow10(a) <= pow10(b),
    decreases b,
{
    if a < b {
        lemma_pow10_mono(a, (b - 1) as nat);
        lemma_pow10_pos((b - 1) as nat);
    }
}

pub proof fn lemma_pow10_20()
    ensures
        pow10(20) == 100000000000000000000,
{
    reveal_with_fuel(pow10, 21);
}

/// A nonzero mantissa shifted at least twenty places exceeds the cap.
pub proof fn lemma_mag_over(v: nat, k: nat)
    requires
        v >= 1,
        k >= 20,
    ensures
        v * pow10(k) >= MAG_CAP,
{
    lemma_pow10_20();
    lemma_pow10_mono(20, k);
    assert(v * pow10(k) >= pow10(k)) by (nonlinear_arith)
        requires
            v >= 1,
    ;
}

} // verus!
