//! Scalar arithmetic on IEEE-754 single-precision bit patterns.
//!
//! Every scalar of the pipeline is a `u32` holding the bit pattern of an
//! IEEE-754 binary32 value.  Rounding arithmetic (add, mul, div) is
//! delegated to the `rustc_apfloat` software implementation of IEEE-754
//! and described by the uninterpreted functions `f32_add`, `f32_mul` and
//! `f32_div`.  Everything that is decidable from the bit pattern alone
//! (sign, classification, ordering, negation, min/max) as well as the
//! square root are implemented and verified here as plain integer code.

use vstd::prelude::*;
use rustc_apfloat::Float;

verus! {

use vstd::arithmetic::power2::{pow2, lemma_pow2_adds, lemma_pow2_strictly_increases};

pub const F32_POS_ZERO: u32 = 0x0000_0000;
pub const F32_NEG_ZERO: u32 = 0x8000_0000;
pub const F32_ONE: u32 = 0x3F80_0000;
pub const F32_TWO: u32 = 0x4000_0000;
pub const F32_POS_INF: u32 = 0x7F80_0000;
pub const F32_NEG_INF: u32 = 0xFF80_0000;
/// Largest finite binary32 value.
pub const F32_GREATEST: u32 = 0x7F7F_FFFF;
/// Most negative finite binary32 value.
pub const F32_LEAST: u32 = 0xFF7F_FFFF;
/// Canonical quiet NaN.
pub const F32_NAN: u32 = 0x7FC0_0000;

// ---------------------------------------------------------------------------
// Classification, decided by the bit pattern alone.
// ---------------------------------------------------------------------------

/// The sign bit of the encoded value.
pub open spec fn sign_bit(x: u32) -> bool {
    x >= 0x8000_0000
}

/// The magnitude bits: the encoding with the sign bit cleared.
pub open spec fn mag_bits(x: u32) -> u32 {
    if x >= 0x8000_0000 {
        (x - 0x8000_0000) as u32
    } else {
        x
    }
}

pub open spec fn is_nan(x: u32) -> bool {
    mag_bits(x) > 0x7F80_0000
}

pub open spec fn is_inf(x: u32) -> bool {
    mag_bits(x) == 0x7F80_0000
}

pub open spec fn is_finite(x: u32) -> bool {
    mag_bits(x) < 0x7F80_0000
}

pub open spec fn is_zero(x: u32) -> bool {
    mag_bits(x) == 0
}

/// A finite bit pattern other than the negative zero: for such values
/// IEEE addition of a zero, multiplication by one and multiplication of
/// a zero are all exact.
pub open spec fn is_plain(x: u32) -> bool {
    is_finite(x) && x != F32_NEG_ZERO
}

/// The encoded value is strictly greater than zero (NaNs excluded,
/// positive infinity included).
pub open spec fn gt_zero(x: u32) -> bool {
    !sign_bit(x) && !is_zero(x) && !is_nan(x)
}

fn exec_mag_bits(x: u32) -> (r: u32)
    ensures
        r == mag_bits(x),
{
    if x >= 0x8000_0000 {
        x - 0x8000_0000
    } else {
        x
    }
}

pub fn is_nan_bits(x: u32) -> (r: bool)
    ensures
        r == is_nan(x),
{
    exec_mag_bits(x) > 0x7F80_0000
}

pub fn is_finite_bits(x: u32) -> (r: bool)
    ensures
        r == is_finite(x),
{
    exec_mag_bits(x) < 0x7F80_0000
}

/// Strictly-positive test, as comparing against a positive zero does.
pub fn gt_zero_bits(x: u32) -> (r: bool)
    ensures
        r == gt_zero(x),
{
    0 < x && x <= 0x7F80_0000
}

// ---------------------------------------------------------------------------
// Negation, ordering, min and max: exact bit-level operations.
// ---------------------------------------------------------------------------

/// IEEE negation: the sign bit is flipped, nothing else changes.
pub open spec fn f32_neg(x: u32) -> u32 {
    if x >= 0x8000_0000 {
        (x - 0x8000_0000) as u32
    } else {
        (x + 0x8000_0000) as u32
    }
}

pub fn neg_bits(x: u32) -> (r: u32)
    ensures
        r == f32_neg(x),
{
    if x >= 0x8000_0000 {
        x - 0x8000_0000
    } else {
        x + 0x8000_0000
    }
}

/// The IEEE `<` relation on encoded values: false whenever either side is
/// a NaN, and the two zeros compare equal.
pub open spec fn f32_lt(a: u32, b: u32) -> bool {
    if is_nan(a) || is_nan(b) {
        false
    } else if is_zero(a) && is_zero(b) {
        false
    } else if sign_bit(a) != sign_bit(b) {
        sign_bit(a)
    } else if !sign_bit(a) {
        mag_bits(a) < mag_bits(b)
    } else {
        mag_bits(b) < mag_bits(a)
    }
}

pub fn lt_bits(a: u32, b: u32) -> (r: bool)
    ensures
        r == f32_lt(a, b),
{
    let ma = exec_mag_bits(a);
    let mb = exec_mag_bits(b);
    if ma > 0x7F80_0000 || mb > 0x7F80_0000 {
        false
    } else if ma == 0 && mb == 0 {
        false
    } else if (a >= 0x8000_0000) != (b >= 0x8000_0000) {
        a >= 0x8000_0000
    } else if a < 0x8000_0000 {
        ma < mb
    } else {
        mb < ma
    }
}

/// The smaller of the two encoded values; if one is a NaN the other is
/// returned, and when both sides compare equal (the two zeros) the first
/// argument is returned.
pub open spec fn f32_min(a: u32, b: u32) -> u32 {
    if is_nan(a) {
        b
    } else if is_nan(b) {
        a
    } else if f32_lt(b, a) {
        b
    } else {
        a
    }
}

pub open spec fn f32_max(a: u32, b: u32) -> u32 {
    if is_nan(a) {
        b
    } else if is_nan(b) {
        a
    } else if f32_lt(a, b) {
        b
    } else {
        a
    }
}

pub fn min_bits(a: u32, b: u32) -> (r: u32)
    ensures
        r == f32_min(a, b),
{
    if is_nan_bits(a) {
        b
    } else if is_nan_bits(b) {
        a
    } else if lt_bits(b, a) {
        b
    } else {
        a
    }
}

pub fn max_bits(a: u32, b: u32) -> (r: u32)
    ensures
        r == f32_max(a, b),
{
    if is_nan_bits(a) {
        b
    } else if is_nan_bits(b) {
        a
    } else if lt_bits(a, b) {
        b
    } else {
        a
    }
}

// ---------------------------------------------------------------------------
// Rounding arithmetic, performed by rustc_apfloat.
// ---------------------------------------------------------------------------

/// The IEEE-754 round-to-nearest-even sum of the two encoded values.
pub uninterp spec fn f32_add(a: u32, b: u32) -> u32;

/// The IEEE-754 round-to-nearest-even product of the two encoded values.
pub uninterp spec fn f32_mul(a: u32, b: u32) -> u32;

/// The IEEE-754 round-to-nearest-even quotient of the two encoded values.
pub uninterp spec fn f32_div(a: u32, b: u32) -> u32;

/// Subtraction is addition of the negation, exactly as IEEE-754 (and
/// `rustc_apfloat`, whose `sub_r` is literally `add_r` of the negated
/// operand) defines it.
pub open spec fn f32_sub(a: u32, b: u32) -> u32 {
    f32_add(a, f32_neg(b))
}

/// Relies on `rustc_apfloat::ieee::Single::add_r`: IEEE-754 binary32
/// addition with round-to-nearest-even.  The extra clauses state exact
/// cases IEEE-754 guarantees: adding a negative zero changes no non-NaN
/// value, and adding a positive zero changes no non-NaN value other than
/// the negative zero.
#[verifier::external_body]
pub fn add_bits(a: u32, b: u32) -> (r: u32)
    ensures
        r == f32_add(a, b),
        !is_nan(a) && b == F32_NEG_ZERO ==> r == a,
        !is_nan(a) && a != F32_NEG_ZERO && b == F32_POS_ZERO ==> r == a,
        a == F32_NEG_ZERO && b == F32_POS_ZERO ==> r == F32_POS_ZERO,
        a == F32_NEG_ZERO && !is_nan(b) ==> r == b,
        a == F32_POS_ZERO && !is_nan(b) && b != F32_NEG_ZERO ==> r == b,
{
    let x = rustc_apfloat::ieee::Single::from_bits(a as u128);
    let y = rustc_apfloat::ieee::Single::from_bits(b as u128);
    let z = x.add_r(y, rustc_apfloat::Round::NearestTiesToEven).value;
    z.to_bits() as u32
}

/// Relies on `rustc_apfloat::ieee::Single::mul_r`: IEEE-754 binary32
/// multiplication with round-to-nearest-even.  The extra clauses state
/// exact cases IEEE-754 guarantees: multiplication by one is the
/// identity on non-NaN values, and the product of a positive zero with a
/// finite value is the zero whose sign is the sign of that value.
#[verifier::external_body]
pub fn mul_bits(a: u32, b: u32) -> (r: u32)
    ensures
        r == f32_mul(a, b),
        a == F32_ONE && !is_nan(b) ==> r == b,
        b == F32_ONE && !is_nan(a) ==> r == a,
        a == F32_POS_ZERO && is_finite(b) ==> r == (if sign_bit(b) {
            F32_NEG_ZERO
        } else {
            F32_POS_ZERO
        }),
        b == F32_POS_ZERO && is_finite(a) ==> r == (if sign_bit(a) {
            F32_NEG_ZERO
        } else {
            F32_POS_ZERO
        }),
{
    let x = rustc_apfloat::ieee::Single::from_bits(a as u128);
    let y = rustc_apfloat::ieee::Single::from_bits(b as u128);
    let z = x.mul_r(y, rustc_apfloat::Round::NearestTiesToEven).value;
    z.to_bits() as u32
}

/// Relies on `rustc_apfloat::ieee::Single::div_r`: IEEE-754 binary32
/// division with round-to-nearest-even.  The extra clause states an exact
/// case IEEE-754 guarantees: division by one is the identity on non-NaN
/// values.
#[verifier::external_body]
pub fn div_bits(a: u32, b: u32) -> (r: u32)
    ensures
        r == f32_div(a, b),
        b == F32_ONE && !is_nan(a) ==> r == a,
{
    let x = rustc_apfloat::ieee::Single::from_bits(a as u128);
    let y = rustc_apfloat::ieee::Single::from_bits(b as u128);
    let z = x.div_r(y, rustc_apfloat::Round::NearestTiesToEven).value;
    z.to_bits() as u32
}

pub fn sub_bits(a: u32, b: u32) -> (r: u32)
    ensures
        r == f32_sub(a, b),
        !is_nan(a) && b == F32_POS_ZERO ==> r == a,
{
    add_bits(a, neg_bits(b))
}

// ---------------------------------------------------------------------------
// Square root: exact integer computation of the rounded IEEE-754 result.
// ---------------------------------------------------------------------------

/// `s` is the integer square root of `n`.
pub open spec fn is_sqrt_floor(s: int, n: int) -> bool {
    0 <= s && s * s <= n && n < (s + 1) * (s + 1)
}

pub open spec fn spec_isqrt(n: int) -> int {
    choose|s: int| is_sqrt_floor(s, n)
}

pub proof fn lemma_isqrt_unique(n: int, s: int)
    requires
        is_sqrt_floor(s, n),
    ensures
        spec_isqrt(n) == s,
{
    assert(is_sqrt_floor(spec_isqrt(n), n)) by {
        assert(exists|u: int| is_sqrt_floor(u, n));
    }
    let t = spec_isqrt(n);
    assert(s == t) by (nonlinear_arith)
        requires
            is_sqrt_floor(s, n),
            is_sqrt_floor(t, n),
    ;
}

/// Integer square root by binary search.
fn isqrt64(n: u64) -> (s: u64)
    requires
        n < 0x4000000000000,
    ensures
        is_sqrt_floor(s as int, n as int),
        s == spec_isqrt(n as int),
{
    let mut lo: u64 = 0;
    let mut hi: u64 = 0x2000000;
    assert(hi * hi > n) by (nonlinear_arith)
        requires
            hi == 0x2000000,
            n < 0x4000000000000,
    ;
    while lo + 1 < hi
        invariant
            lo < hi <= 0x2000000,
            lo * lo <= n,
            hi * hi > n,
        decreases hi - lo,
    {
        let mid: u64 = lo + (hi - lo) / 2;
        assert(mid * mid <= 0x2000000 * 0x2000000) by (nonlinear_arith)
            requires
                mid <= 0x2000000,
        ;
        if mid * mid <= n {
            lo = mid;
        } else {
            hi = mid;
        }
    }
    assert((lo + 1) * (lo + 1) > n);
    proof {
        lemma_isqrt_unique(n as int, lo as int);
    }
    lo
}

/// Bring a positive mantissa up into `[2^23, 2^24)`, halving the
/// exponent-weighted value at each step.
pub open spec fn norm_mantissa(m: nat, e: int) -> (nat, int)
    decreases 0x1000000 - m,
{
    if m >= 0x800000 || m == 0 {
        (m, e)
    } else {
        norm_mantissa(m * 2, e - 1)
    }
}

pub proof fn lemma_norm_mantissa(m: nat, e: int)
    requires
        0 < m < 0x1000000,
    ensures
        0x800000 <= norm_mantissa(m, e).0 < 0x1000000,
        norm_mantissa(m, e).1 <= e,
        norm_mantissa(m, e).0 == m * pow2((e - norm_mantissa(m, e).1) as nat),
    decreases 0x1000000 - m,
{
    vstd::arithmetic::power2::lemma2_to64();
    if m >= 0x800000 {
        assert(norm_mantissa(m, e) == (m, e));
        assert(pow2(0) == 1);
        assert(m * pow2((e - norm_mantissa(m, e).1) as nat) == m * 1) by (nonlinear_arith)
            requires
                pow2((e - norm_mantissa(m, e).1) as nat) == 1,
        ;
    } else {
        lemma_norm_mantissa(m * 2, e - 1);
        let r = norm_mantissa(m * 2, e - 1);
        assert(norm_mantissa(m, e) == r);
        let k = ((e - 1) - r.1) as nat;
        assert(r.0 == (m * 2) * pow2(k));
        lemma_pow2_adds(1, k);
        assert(pow2(k + 1) == 2 * pow2(k));
        assert(m * pow2(k + 1) == (m * 2) * pow2(k)) by (nonlinear_arith)
            requires
                pow2(k + 1) == 2 * pow2(k),
        ;
        assert((e - norm_mantissa(m, e).1) as nat == k + 1);
        assert(norm_mantissa(m, e).0 == m * pow2((e - norm_mantissa(m, e).1) as nat));
    }
}

/// From the product form, the exponent drops by at most 23.
pub proof fn lemma_norm_mantissa_exp(m: nat, e: int)
    requires
        0 < m < 0x1000000,
    ensures
        e - 23 <= norm_mantissa(m, e).1 <= e,
{
    lemma_norm_mantissa(m, e);
    let k = (e - norm_mantissa(m, e).1) as nat;
    if k > 23 {
        vstd::arithmetic::power2::lemma2_to64();
        if k > 24 {
            lemma_pow2_strictly_increases(24, k);
        }
        assert(pow2(k) >= 0x1000000);
        assert(m * pow2(k) >= pow2(k)) by (nonlinear_arith)
            requires
                m >= 1,
                pow2(k) >= 0,
        ;
    }
}

/// The rounded IEEE-754 square root of the encoded value, computed
/// exactly over the integers: the significand is scaled so that its
/// integer square root carries 24 bits, and the sticky remainder decides
/// the round-to-nearest step (a tie is impossible, since no binary32
/// square root lies exactly halfway between two representable values).
/// Negative non-zero values yield the canonical quiet NaN; NaNs are
/// quieted; zeros and the positive infinity are returned unchanged.
pub open spec fn f32_sqrt(x: u32) -> u32 {
    if is_nan(x) {
        if mag_bits(x) % 0x800000 < 0x400000 {
            (x + 0x400000) as u32
        } else {
            x
        }
    } else if sign_bit(x) && !is_zero(x) {
        F32_NAN
    } else if is_zero(x) || x == F32_POS_INF {
        x
    } else {
        f32_sqrt_positive(x)
    }
}

/// The positive-finite case of `f32_sqrt`.
pub open spec fn f32_sqrt_positive(x: u32) -> u32 {
    let exp = x / 0x800000;
    let frac = x % 0x800000;
    let m0: nat = if exp == 0 {
        frac as nat
    } else {
        (frac + 0x800000) as nat
    };
    let e0: int = if exp == 0 {
        -149
    } else {
        exp - 150
    };
    let norm = norm_mantissa(m0, e0);
    let m2: nat = if (norm.1 - 23) % 2 == 0 {
        norm.0
    } else {
        norm.0 * 2
    };
    let e2: int = if (norm.1 - 23) % 2 == 0 {
        norm.1
    } else {
        norm.1 - 1
    };
    let n = m2 * 0x800000;
    let s = spec_isqrt(n as int);
    let rem = n - s * s;
    let rm = if rem > s {
        s + 1
    } else {
        s
    };
    (((e2 - 23) / 2 + 149) * 0x800000 + rm) as u32
}

/// The square root of one is one.
pub proof fn lemma_sqrt_one()
    ensures
        f32_sqrt(F32_ONE) == F32_ONE,
{
    assert(F32_ONE / 0x800000 == 127);
    assert(F32_ONE % 0x800000 == 0);
    assert(norm_mantissa(0x800000, -23) == ((0x800000 as nat), (-23 as int)));
    assert((0x800000 as int) * (0x800000 as int) == 0x400000000000) by (nonlinear_arith);
    assert((0x800001 as int) * (0x800001 as int) == 0x400001000001) by (nonlinear_arith);
    assert(is_sqrt_floor(0x800000, 0x400000000000));
    lemma_isqrt_unique(0x400000000000, 0x800000);
    assert((((-23 as int) - 23) % 2) == 0);
    assert(f32_sqrt_positive(F32_ONE) == F32_ONE);
}

/// IEEE-754 binary32 square root, computed in verified integer code.
pub fn sqrt_bits(x: u32) -> (r: u32)
    ensures
        r == f32_sqrt(x),
{
    let mag = exec_mag_bits(x);
    if mag > 0x7F80_0000 {
        // NaN in: quieted NaN out.
        if mag % 0x800000 < 0x400000 {
            x + 0x400000
        } else {
            x
        }
    } else if x >= 0x8000_0000 && mag != 0 {
        F32_NAN
    } else if mag == 0 || x == F32_POS_INF {
        x
    } else {
        let exp: u32 = x / 0x800000;
        let frac: u32 = x % 0x800000;
        let mut m: u64 = if exp == 0 {
            frac as u64
        } else {
            frac as u64 + 0x800000
        };
        let mut e: i64 = if exp == 0 {
            -149
        } else {
            exp as i64 - 150
        };
        let ghost gm: nat = m as nat;
        let ghost ge: int = e as int;
        while m < 0x800000
            invariant
                0 < m < 0x1000000,
                0 < gm < 0x1000000,
                -149 <= ge <= 105,
                ge - 23 <= e <= ge,
                norm_mantissa(gm, ge) == norm_mantissa(m as nat, e as int),
            decreases 0x1000000 - m,
        {
            proof {
                lemma_norm_mantissa_exp(gm, ge);
                lemma_norm_mantissa_exp((m * 2) as nat, e - 1);
            }
            m = m * 2;
            e = e - 1;
        }
        assert(norm_mantissa(gm, ge) == (m as nat, e as int));
        // The parity test and the final exponent arithmetic are done on a
        // shifted non-negative copy of the exponent; the shift 275 keeps
        // the parity of `e - 23` and makes `(e2 + 275) / 2` equal to
        // `(e2 - 23) / 2 + 149`.
        let even: bool = ((e + 275) as u64) % 2 == 0;
        assert(even == ((e as int - 23) % 2 == 0));
        let (m2, e2): (u64, i64) = if even {
            (m, e)
        } else {
            (m * 2, e - 1)
        };
        let n: u64 = m2 * 0x800000;
        let s: u64 = isqrt64(n);
        assert(s < 0x2000000) by (nonlinear_arith)
            requires
                is_sqrt_floor(s as int, n as int),
                n < 0x4000000000000,
        ;
        let rem: u64 = n - s * s;
        let rm: u64 = if rem > s {
            s + 1
        } else {
            s
        };
        let ef: u64 = ((e2 + 275) as u64) / 2;
        assert(ef == (e2 as int - 23) / 2 + 149);
        (ef * 0x800000 + rm) as u32
    }
}

} // verus!
