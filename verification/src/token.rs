//! Primitive token decoders shared by the three dialects: spacing, newlines,
//! section markers, native integers (the 4.1 dialect) and decimal
//! floating-point literals (ids and counts in the older dialects, and every
//! coordinate field).

use vstd::prelude::*;

use crate::num::{
    capped, digits_acc, digits_val, dv_ext, is_digit, lemma_dv_ext_concat, lemma_mag_over,
    pow10_acc, sat_i32, sat_u64, trunc_mag, EXP_CAP, MAG_CAP,
};
use crate::step::{agrees, carry, Fail, Step};

verus! {

/// Inter-field spacing: blanks and horizontal tabs, never newlines.
pub open spec fn is_space(c: u8) -> bool {
    c == 32 || c == 9
}

/// First position at or after `i` that does not hold a spacing byte.
pub open spec fn sp_skip_space(s: Seq<u8>, i: int) -> int
    decreases s.len() - i when 0 <= i <= s.len()
{
    if i < s.len() && is_space(s[i]) {
        sp_skip_space(s, i + 1)
    } else {
        i
    }
}

/// First position at or after `i` that does not hold a decimal digit.
pub open spec fn sp_digits_end(s: Seq<u8>, i: int) -> int
    decreases s.len() - i when 0 <= i <= s.len()
{
    if i < s.len() && is_digit(s[i]) {
        sp_digits_end(s, i + 1)
    } else {
        i
    }
}

/// One or more spacing bytes.
pub open spec fn sp_space1(s: Seq<u8>, i: int) -> Step<()> {
    if i < s.len() && is_space(s[i]) {
        Step::Hit { next: sp_skip_space(s, i), val: () }
    } else {
        Step::Miss { at: i }
    }
}

/// Exactly one newline byte.
pub open spec fn sp_newline(s: Seq<u8>, i: int) -> Step<()> {
    if i < s.len() && s[i] == 10 {
        Step::Hit { next: i + 1, val: () }
    } else {
        Step::Miss { at: i }
    }
}

/// The literal byte sequence `lit`.
pub open spec fn sp_lit(s: Seq<u8>, i: int, lit: Seq<u8>) -> Step<()> {
    if i + lit.len() <= s.len() && s.subrange(i, i + lit.len()) == lit {
        Step::Hit { next: i + lit.len(), val: () }
    } else {
        Step::Miss { at: i }
    }
}

/// First position at or after `i` where the marker `lit` occurs as a
/// substring, if any.
pub open spec fn sp_find(s: Seq<u8>, i: int, lit: Seq<u8>) -> Option<int>
    decreases s.len() - i when 0 <= i <= s.len()
{
    if i + lit.len() > s.len() {
        Option::None
    } else if s.subrange(i, i + lit.len()) == lit {
        Option::Some(i)
    } else if i < s.len() {
        sp_find(s, i + 1, lit)
    } else {
        Option::None
    }
}

/// An unsigned decimal integer read natively; a token whose value does not
/// fit `u64` is rejected.
pub open spec fn sp_u64(s: Seq<u8>, i: int) -> Step<u64> {
    let de = sp_digits_end(s, i);
    if de == i {
        Step::Miss { at: i }
    } else if digits_val(s.subrange(i, de)) > u64::MAX {
        Step::Miss { at: i }
    } else {
        Step::Hit { next: de, val: digits_val(s.subrange(i, de)) as u64 }
    }
}

/// A signed decimal integer read natively; a token whose value does not
/// fit `i32` is rejected.
pub open spec fn sp_i32(s: Seq<u8>, i: int) -> Step<i32> {
    let neg = i < s.len() && s[i] == 45;
    let j = if i < s.len() && (s[i] == 43 || s[i] == 45) {
        i + 1
    } else {
        i
    };
    let de = sp_digits_end(s, j);
    if de == j {
        Step::Miss { at: i }
    } else {
        let v = digits_val(s.subrange(j, de));
        if neg {
            if v > 0x8000_0000 {
                Step::Miss { at: i }
            } else {
                Step::Hit { next: de, val: (0 - v) as i32 }
            }
        } else {
            if v > 0x7FFF_FFFF {
                Step::Miss { at: i }
            } else {
                Step::Hit { next: de, val: v as i32 }
            }
        }
    }
}

/// The pieces of a decimal floating-point literal: sign, integer-part
/// digits, fraction digits, and a signed exponent given by its digits.
#[verifier::ext_equal]
pub ghost struct FloatTokV {
    pub neg: bool,
    pub ip: Seq<u8>,
    pub fp: Seq<u8>,
    pub eneg: bool,
    pub ep: Seq<u8>,
}

/// Executable counterpart of [`FloatTokV`].
pub struct FloatTok {
    pub neg: bool,
    pub ip: Vec<u8>,
    pub fp: Vec<u8>,
    pub eneg: bool,
    pub ep: Vec<u8>,
}

impl View for FloatTok {
    type V = FloatTokV;

    open spec fn view(&self) -> FloatTokV {
        FloatTokV { neg: self.neg, ip: self.ip@, fp: self.fp@, eneg: self.eneg, ep: self.ep@ }
    }
}

/// All three digit fields hold digit bytes only.
pub open spec fn tok_wf(t: FloatTokV) -> bool {
    &&& (forall|k: int| 0 <= k < t.ip.len() ==> is_digit(#[trigger] t.ip[k]))
    &&& (forall|k: int| 0 <= k < t.fp.len() ==> is_digit(#[trigger] t.fp[k]))
    &&& (forall|k: int| 0 <= k < t.ep.len() ==> is_digit(#[trigger] t.ep[k]))
}

/// The literal's exponent as a signed integer.
pub open spec fn tok_exp(t: FloatTokV) -> int {
    if t.eneg {
        0 - digits_val(t.ep)
    } else {
        digits_val(t.ep) as int
    }
}

/// The literal's magnitude truncated toward zero.
pub open spec fn tok_mag(t: FloatTokV) -> nat {
    trunc_mag(t.ip, t.fp, tok_exp(t))
}

/// The literal coerced to `i32`, as the older dialects read ids.
pub open spec fn tok_i32(t: FloatTokV) -> i32 {
    sat_i32(t.neg, tok_mag(t))
}

/// The literal coerced to `u64`, as the older dialects read counts.
pub open spec fn tok_u64(t: FloatTokV) -> u64 {
    sat_u64(t.neg, tok_mag(t))
}

/// The exponent part and token assembly shared by both mantissa shapes:
/// an optional `e`/`E` exponent with optional sign and mandatory digits.
pub open spec fn sp_float_exp(s: Seq<u8>, at: int, neg: bool, ip: Seq<u8>, fp: Seq<u8>, j: int) -> Step<
    FloatTokV,
> {
    if j < s.len() && (s[j] == 101 || s[j] == 69) {
        let eneg = j + 1 < s.len() && s[j + 1] == 45;
        let j1 = if j + 1 < s.len() && (s[j + 1] == 43 || s[j + 1] == 45) {
            j + 2
        } else {
            j + 1
        };
        let ee = sp_digits_end(s, j1);
        if ee == j1 {
            Step::Miss { at }
        } else {
            Step::Hit {
                next: ee,
                val: FloatTokV { neg, ip, fp, eneg, ep: s.subrange(j1, ee) },
            }
        }
    } else {
        Step::Hit { next: j, val: FloatTokV { neg, ip, fp, eneg: false, ep: Seq::empty() } }
    }
}

/// A decimal floating-point literal: optional sign, then either digits with
/// an optional fraction or a fraction alone, then an optional exponent.
pub open spec fn sp_float(s: Seq<u8>, i: int) -> Step<FloatTokV> {
    let neg = i < s.len() && s[i] == 45;
    let j0 = if i < s.len() && (s[i] == 43 || s[i] == 45) {
        i + 1
    } else {
        i
    };
    let de = sp_digits_end(s, j0);
    if de == j0 {
        if j0 < s.len() && s[j0] == 46 {
            let fe = sp_digits_end(s, j0 + 1);
            if fe == j0 + 1 {
                Step::Miss { at: i }
            } else {
                sp_float_exp(s, i, neg, Seq::empty(), s.subrange(j0 + 1, fe), fe)
            }
        } else {
            Step::Miss { at: i }
        }
    } else {
        let ip = s.subrange(j0, de);
        if de < s.len() && s[de] == 46 {
            let fe = sp_digits_end(s, de + 1);
            sp_float_exp(s, i, neg, ip, s.subrange(de + 1, fe), fe)
        } else {
            sp_float_exp(s, i, neg, ip, Seq::empty(), de)
        }
    }
}

/// Copies `s[a..b]` into a fresh vector.
pub fn copy_range(s: &[u8], a: usize, b: usize) -> (r: Vec<u8>)
    requires
        a <= b && b <= s@.len(),
    ensures
        r@ == s@.subrange(a as int, b as int),
{
    let mut r: Vec<u8> = Vec::new();
    let mut j: usize = a;
    while j < b
        invariant
            a <= j <= b <= s@.len(),
            r@ == s@.subrange(a as int, j as int),
        decreases b - j,
    {
        r.push(s[j]);
        proof {
            assert(s@.subrange(a as int, j + 1) =~= s@.subrange(a as int, j as int).push(
                s@[j as int],
            ));
        }
        j = j + 1;
    }
    r
}

/// Scans past spacing bytes.
pub fn skip_space(s: &[u8], i: usize) -> (j: usize)
    requires
        i <= s@.len(),
    ensures
        j == sp_skip_space(s@, i as int),
        i <= j <= s@.len(),
{
    let mut j: usize = i;
    loop
        invariant
            i <= j <= s@.len(),
            sp_skip_space(s@, i as int) == sp_skip_space(s@, j as int),
        ensures
            j <= s@.len() && j == sp_skip_space(s@, i as int),
        decreases s@.len() - j,
    {
        if j < s.len() {
            let c = s[j];
            if c == 32 || c == 9 {
                j = j + 1;
            } else {
                break ;
            }
        } else {
            break ;
        }
    }
    j
}

/// Scans past decimal digits.
pub fn scan_digits(s: &[u8], i: usize) -> (j: usize)
    requires
        i <= s@.len(),
    ensures
        j == sp_digits_end(s@, i as int),
        i <= j <= s@.len(),
        forall|k: int| i <= k < j ==> is_digit(s@[k]),
{
    let mut j: usize = i;
    loop
        invariant
            i <= j <= s@.len(),
            sp_digits_end(s@, i as int) == sp_digits_end(s@, j as int),
            forall|k: int| i <= k < j ==> is_digit(s@[k]),
        ensures
            j <= s@.len() && j == sp_digits_end(s@, i as int) && (forall|k: int|
                i <= k < j ==> is_digit(s@[k])),
        decreases s@.len() - j,
    {
        if j < s.len() {
            let c = s[j];
            if 48 <= c && c <= 57 {
                j = j + 1;
            } else {
                break ;
            }
        } else {
            break ;
        }
    }
    j
}

/// Decodes one or more spacing bytes.
pub fn p_space1(s: &[u8], i: usize) -> (r: Result<(usize, ()), Fail>)
    requires
        i <= s@.len(),
    ensures
        agrees(s@.len() as int, i as int, r, sp_space1(s@, i as int), (|v: ()| v)),
{
    if i < s.len() {
        let c = s[i];
        if c == 32 || c == 9 {
            let j = skip_space(s, i);
            return Ok((j, ()));
        }
    }
    Err(Fail::miss(i))
}

/// Decodes one newline byte.
pub fn p_newline(s: &[u8], i: usize) -> (r: Result<(usize, ()), Fail>)
    requires
        i <= s@.len(),
    ensures
        agrees(s@.len() as int, i as int, r, sp_newline(s@, i as int), (|v: ()| v)),
{
    if i < s.len() && s[i] == 10 {
        Ok((i + 1, ()))
    } else {
        Err(Fail::miss(i))
    }
}

/// Decodes the literal byte sequence `lit`.
pub fn p_lit(s: &[u8], i: usize, lit: &[u8]) -> (r: Result<(usize, ()), Fail>)
    requires
        i <= s@.len(),
    ensures
        agrees(s@.len() as int, i as int, r, sp_lit(s@, i as int, lit@), (|v: ()| v)),
{
    if s.len() - i < lit.len() {
        return Err(Fail::miss(i));
    }
    let mut k: usize = 0;
    while k < lit.len()
        invariant
            i + lit@.len() <= s@.len(),
            s@.len() <= usize::MAX,
            k <= lit@.len(),
            forall|q: int| 0 <= q < k ==> s@[i + q] == lit@[q],
        decreases lit@.len() - k,
    {
        if s[i + k] != lit[k] {
            proof {
                assert(s@.subrange(i as int, i + lit@.len())[k as int] != lit@[k as int]);
            }
            return Err(Fail::miss(i));
        }
        k = k + 1;
    }
    proof {
        assert(s@.subrange(i as int, i + lit@.len()) =~= lit@);
    }
    Ok((i + lit.len(), ()))
}

/// Finds the first occurrence of the marker `lit` at or after `i`.
pub fn find_lit(s: &[u8], i: usize, lit: &[u8]) -> (r: Option<usize>)
    requires
        i <= s@.len(),
        lit@.len() >= 1,
    ensures
        match r {
            Option::Some(m) => {
                &&& sp_find(s@, i as int, lit@) == Option::Some(m as int)
                &&& i <= m && m + lit@.len() <= s@.len()
            },
            Option::None => sp_find(s@, i as int, lit@) is None,
        },
{
    let n = s.len();
    let mut j: usize = i;
    loop
        invariant
            i <= j <= s@.len(),
            n == s@.len(),
            lit@.len() >= 1,
            sp_find(s@, i as int, lit@) == sp_find(s@, j as int, lit@),
        ensures
            i <= j <= s@.len(),
            match sp_find(s@, i as int, lit@) {
                Option::Some(m) => i <= m && m == j && m + lit@.len() <= s@.len(),
                Option::None => j + lit@.len() > s@.len(),
            },
        decreases s@.len() - j,
    {
        if n - j < lit.len() {
            break ;
        }
        match p_lit(s, j, lit) {
            Ok(_) => {
                break ;
            },
            Err(_) => {
                j = j + 1;
            },
        }
    }
    if s.len() - j >= lit.len() {
        Some(j)
    } else {
        None
    }
}

/// Decodes a native unsigned integer.
pub fn p_u64(s: &[u8], i: usize) -> (r: Result<(usize, u64), Fail>)
    requires
        i <= s@.len(),
    ensures
        agrees(s@.len() as int, i as int, r, sp_u64(s@, i as int), (|v: u64| v)),
{
    let de = scan_digits(s, i);
    if de == i {
        return Err(Fail::miss(i));
    }
    let mc = digits_acc(s, i, de, MAG_CAP, 0, Ghost(0nat));
    if mc > u64::MAX as u128 {
        Err(Fail::miss(i))
    } else {
        Ok((de, mc as u64))
    }
}

/// Decodes a native signed integer.
pub fn p_i32(s: &[u8], i: usize) -> (r: Result<(usize, i32), Fail>)
    requires
        i <= s@.len(),
    ensures
        agrees(s@.len() as int, i as int, r, sp_i32(s@, i as int), (|v: i32| v)),
{
    let mut j: usize = i;
    let mut neg: bool = false;
    if i < s.len() {
        let c = s[i];
        if c == 43 || c == 45 {
            neg = c == 45;
            j = i + 1;
        }
    }
    let de = scan_digits(s, j);
    if de == j {
        return Err(Fail::miss(i));
    }
    let mc = digits_acc(s, j, de, MAG_CAP, 0, Ghost(0nat));
    if neg {
        if mc > 0x8000_0000 {
            Err(Fail::miss(i))
        } else {
            Ok((de, (0 - mc as i64) as i32))
        }
    } else {
        if mc > 0x7FFF_FFFF {
            Err(Fail::miss(i))
        } else {
            Ok((de, mc as i32))
        }
    }
}

/// An id field: a decimal floating-point literal truncated to `i32`.
pub open spec fn sp_id(s: Seq<u8>, i: int) -> Step<i32> {
    match sp_float(s, i) {
        Step::Hit { next, val } => Step::Hit { next, val: tok_i32(val) },
        st => carry(st),
    }
}

/// A count field: a decimal floating-point literal truncated to `u64`.
pub open spec fn sp_count(s: Seq<u8>, i: int) -> Step<u64> {
    match sp_float(s, i) {
        Step::Hit { next, val } => Step::Hit { next, val: tok_u64(val) },
        st => carry(st),
    }
}

/// Decodes an id field.
pub fn p_id(s: &[u8], i: usize) -> (r: Result<(usize, i32), Fail>)
    requires
        i <= s@.len(),
    ensures
        agrees(s@.len() as int, i as int, r, sp_id(s@, i as int), (|v: i32| v)),
{
    let (j, t) = p_float(s, i)?;
    let v = tok_to_i32(&t);
    Ok((j, v))
}

/// Decodes a count field.
pub fn p_count(s: &[u8], i: usize) -> (r: Result<(usize, u64), Fail>)
    requires
        i <= s@.len(),
    ensures
        agrees(s@.len() as int, i as int, r, sp_count(s@, i as int), (|v: u64| v)),
{
    let (j, t) = p_float(s, i)?;
    let v = tok_to_u64(&t);
    Ok((j, v))
}

/// Decodes the exponent part and assembles the token.
fn p_float_exp(s: &[u8], at: usize, neg: bool, ip: Vec<u8>, fp: Vec<u8>, j: usize) -> (r: Result<
    (usize, FloatTok),
    Fail,
>)
    requires
        at <= j <= s@.len(),
        forall|k: int| 0 <= k < ip@.len() ==> is_digit(ip@[k]),
        forall|k: int| 0 <= k < fp@.len() ==> is_digit(fp@[k]),
    ensures
        agrees(
            s@.len() as int,
            at as int,
            r,
            sp_float_exp(s@, at as int, neg, ip@, fp@, j as int),
            (|t: FloatTok| t@),
        ),
        (match r {
            Result::Ok((_, t)) => tok_wf(t@),
            Result::Err(_) => true,
        }),
{
    if j < s.len() {
        let c = s[j];
        if c == 101 || c == 69 {
            let mut j1: usize = j + 1;
            let mut eneg: bool = false;
            if j + 1 < s.len() {
                let c1 = s[j + 1];
                if c1 == 43 || c1 == 45 {
                    eneg = c1 == 45;
                    j1 = j + 2;
                }
            }
            let ee = scan_digits(s, j1);
            if ee == j1 {
                return Err(Fail::miss(at));
            }
            let ep = copy_range(s, j1, ee);
            return Ok((ee, FloatTok { neg, ip, fp, eneg, ep }));
        }
    }
    Ok((j, FloatTok { neg, ip, fp, eneg: false, ep: Vec::new() }))
}

/// Decodes a decimal floating-point literal into its pieces.
pub fn p_float(s: &[u8], i: usize) -> (r: Result<(usize, FloatTok), Fail>)
    requires
        i <= s@.len(),
    ensures
        agrees(s@.len() as int, i as int, r, sp_float(s@, i as int), (|t: FloatTok| t@)),
        (match r {
            Result::Ok((_, t)) => tok_wf(t@),
            Result::Err(_) => true,
        }),
{
    let mut j0: usize = i;
    let mut neg: bool = false;
    if i < s.len() {
        let c = s[i];
        if c == 43 || c == 45 {
            neg = c == 45;
            j0 = i + 1;
        }
    }
    let de = scan_digits(s, j0);
    if de == j0 {
        if j0 < s.len() && s[j0] == 46 {
            let fe = scan_digits(s, j0 + 1);
            if fe == j0 + 1 {
                Err(Fail::miss(i))
            } else {
                let fp = copy_range(s, j0 + 1, fe);
                p_float_exp(s, i, neg, Vec::new(), fp, fe)
            }
        } else {
            Err(Fail::miss(i))
        }
    } else {
        let ip = copy_range(s, j0, de);
        if de < s.len() && s[de] == 46 {
            let fe = scan_digits(s, de + 1);
            let fp = copy_range(s, de + 1, fe);
            p_float_exp(s, i, neg, ip, fp, fe)
        } else {
            p_float_exp(s, i, neg, ip, Vec::new(), de)
        }
    }
}

/// Computes the capped truncated magnitude of a token.
fn tok_mag_exec(t: &FloatTok) -> (mc: u128)
    requires
        tok_wf(t@),
    ensures
        capped(MAG_CAP, mc, tok_mag(t@)),
{
    proof {
        assert(t.ep@.subrange(0, t.ep@.len() as int) =~= t.ep@);
        assert(t.ip@.subrange(0, t.ip@.len() as int) =~= t.ip@);
        assert(t@.ip == t.ip@ && t@.fp == t.fp@ && t@.ep == t.ep@);
        assert(forall|k: int| 0 <= k < t.ip@.len() ==> is_digit(#[trigger] t.ip@[k]));
        assert(forall|k: int| 0 <= k < t.fp@.len() ==> is_digit(#[trigger] t.fp@[k]));
        assert(forall|k: int| 0 <= k < t.ep@.len() ==> is_digit(#[trigger] t.ep@[k]));
    }
    let es = digits_acc(t.ep.as_slice(), 0, t.ep.len(), EXP_CAP, 0, Ghost(0nat));
    let ghost ds = t.ip@ + t.fp@;
    let ghost e = tok_exp(t@);
    let ghost p = t.ip@.len() + e;
    if t.eneg {
        if es >= t.ip.len() as u128 {
            assert(p <= 0);
            assert(tok_mag(t@) == 0);
            0
        } else {
            let pe: usize = t.ip.len() - (es as usize);
            proof {
                assert(ds.take(pe as int) =~= t.ip@.subrange(0, pe as int));
            }
            digits_acc(t.ip.as_slice(), 0, pe, MAG_CAP, 0, Ghost(0nat))
        }
    } else {
        if es <= t.fp.len() as u128 {
            let ee: usize = es as usize;
            let m1 = digits_acc(t.ip.as_slice(), 0, t.ip.len(), MAG_CAP, 0, Ghost(0nat));
            proof {
                assert(ds.take(p) =~= t.ip@ + t.fp@.subrange(0, ee as int));
                lemma_dv_ext_concat(0, t.ip@, t.fp@.subrange(0, ee as int));
            }
            let mc = digits_acc(
                t.fp.as_slice(),
                0,
                ee,
                MAG_CAP,
                m1,
                Ghost(digits_val(t.ip@)),
            );
            proof {
                if p <= 0 {
                    assert(t.ip@.len() == 0 && ee == 0);
                    assert(ds.take(p) =~= Seq::<u8>::empty());
                    assert(dv_ext(0nat, t.ip@ + t.fp@.subrange(0, 0)) == 0);
                }
            }
            mc
        } else {
            let m1 = digits_acc(t.ip.as_slice(), 0, t.ip.len(), MAG_CAP, 0, Ghost(0nat));
            proof {
                assert(t.fp@.subrange(0, t.fp@.len() as int) =~= t.fp@);
                lemma_dv_ext_concat(0, t.ip@, t.fp@);
            }
            let m2 = digits_acc(
                t.fp.as_slice(),
                0,
                t.fp.len(),
                MAG_CAP,
                m1,
                Ghost(digits_val(t.ip@)),
            );
            if m2 == 0 {
                assert(digits_val(ds) == 0);
                assert(digits_val(ds) * crate::num::pow10((p - ds.len()) as nat) == 0)
                    by (nonlinear_arith)
                    requires
                        digits_val(ds) == 0,
                ;
                0
            } else {
                let kc: u128 = es - t.fp.len() as u128;
                let ghost kt = (e - t.fp@.len()) as nat;
                if kc >= 20 {
                    proof {
                        assert(digits_val(ds) >= 1);
                        assert(kt >= 20);
                        lemma_mag_over(digits_val(ds), kt);
                    }
                    MAG_CAP
                } else {
                    assert(kc == kt);
                    pow10_acc(m2, kc as u64, MAG_CAP, Ghost(digits_val(ds)))
                }
            }
        }
    }
}

/// Coerces a decoded literal to `i32`.
pub fn tok_to_i32(t: &FloatTok) -> (r: i32)
    requires
        tok_wf(t@),
    ensures
        r == tok_i32(t@),
{
    let mc = tok_mag_exec(t);
    if t.neg {
        if mc >= 0x8000_0000 {
            i32::MIN
        } else {
            (0 - mc as i64) as i32
        }
    } else {
        if mc >= 0x7FFF_FFFF {
            i32::MAX
        } else {
            mc as i32
        }
    }
}

/// Coerces a decoded literal to `u64`.
pub fn tok_to_u64(t: &FloatTok) -> (r: u64)
    requires
        tok_wf(t@),
    ensures
        r == tok_u64(t@),
{
    let mc = tok_mag_exec(t);
    if t.neg {
        0
    } else {
        if mc >= 0xFFFF_FFFF_FFFF_FFFF {
            u64::MAX
        } else {
            mc as u64
        }
    }
}

/// Copies a byte vector.
pub fn copy_bytes(v: &Vec<u8>) -> (r: Vec<u8>)
    ensures
        r@ == v@,
{
    let r = copy_range(v.as_slice(), 0, v.len());
    proof {
        assert(v@.subrange(0, v@.len() as int) =~= v@);
    }
    r
}

} // verus!

