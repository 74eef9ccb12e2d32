//! A signed fixed-point scalar with 16 fractional bits.
//!
//! Every geometric quantity in this crate is a `Fixed`: an `i64` raw value
//! `r` standing for the real number `r / SCALE`.  All operations are total:
//! results outside the representable range saturate to `RAW_MAX` in
//! magnitude, and a division by zero yields zero.  Each executable operation
//! is pinned by an `ensures` to a spec-level mirror, so every computation
//! built from these operations is a mathematical function of its inputs.

use vstd::prelude::*;
use vstd::arithmetic::div_mod::lemma_div_is_ordered;

verus! {

/// Number of raw units per 1.0.
pub const SCALE: i64 = 65536;

/// Largest raw magnitude a `Fixed` may carry after any operation.
pub const RAW_MAX: i64 = 0x7fff_ffff_ffff_ffff;

/// A fixed-point number: the real value is `r / SCALE`.
#[derive(Clone, Copy, PartialEq, Eq, Structural, Debug)]
pub struct Fixed {
    pub r: i64,
}

/// Magnitude of a mathematical integer.
pub open spec fn abs_s(a: int) -> int {
    if a >= 0 {
        a
    } else {
        -a
    }
}

/// Saturation of a mathematical integer into the raw range of `Fixed`.
pub open spec fn clip_s(a: int) -> int {
    if a > RAW_MAX as int {
        RAW_MAX as int
    } else if a < -(RAW_MAX as int) {
        -(RAW_MAX as int)
    } else {
        a
    }
}

/// Division truncated toward zero, the rounding the operations below use.
pub open spec fn tdiv_s(a: int, b: int) -> int
    recommends
        b != 0,
{
    let q = abs_s(a) / abs_s(b);
    if (a >= 0) == (b >= 0) {
        q
    } else {
        -q
    }
}

/// Builds the `Fixed` whose raw value is the saturation of `a`.
pub open spec fn fx(a: int) -> Fixed {
    Fixed { r: clip_s(a) as i64 }
}

/// Spec mirror of `Fixed::add`.
pub open spec fn fadd(a: Fixed, b: Fixed) -> Fixed {
    fx(a.r + b.r)
}

/// Spec mirror of `Fixed::sub`.
pub open spec fn fsub(a: Fixed, b: Fixed) -> Fixed {
    fx(a.r - b.r)
}

/// Spec mirror of `Fixed::neg`.
pub open spec fn fneg(a: Fixed) -> Fixed {
    fx(-a.r)
}

/// Spec mirror of `Fixed::mul`: the product of the real values, truncated
/// toward zero at 16 fractional bits, then saturated.
pub open spec fn fmul(a: Fixed, b: Fixed) -> Fixed {
    fx(tdiv_s(a.r * b.r, SCALE as int))
}

/// Spec mirror of `Fixed::div`: the quotient of the real values, truncated
/// toward zero, saturated; zero when the divisor is zero.
pub open spec fn fdiv(a: Fixed, b: Fixed) -> Fixed {
    if b.r == 0 {
        Fixed { r: 0 }
    } else {
        fx(tdiv_s(a.r * SCALE, b.r as int))
    }
}

/// The floor of the square root of a nonnegative integer.
pub open spec fn is_sqrt_floor(s: int, n: int) -> bool {
    s >= 0 && s * s <= n && (s + 1) * (s + 1) > n
}

pub open spec fn sqrt_floor(n: int) -> int {
    choose|s: int| is_sqrt_floor(s, n)
}

/// Spec mirror of `Fixed::sqrt`: zero on nonpositive input, else the floor
/// square root taken at the raw scale.
pub open spec fn fsqrt(a: Fixed) -> Fixed {
    if a.r <= 0 {
        Fixed { r: 0 }
    } else {
        Fixed { r: sqrt_floor(a.r * SCALE) as i64 }
    }
}

/// Spec mirror of `Fixed::from_int`.
pub open spec fn fint(i: int) -> Fixed {
    fx(i * SCALE)
}

/// Any two nonnegative integers whose squares bracket `n` the same way are
/// equal, so `sqrt_floor` names the unique floor square root.
pub proof fn lemma_sqrt_floor_unique(n: int, s: int)
    requires
        is_sqrt_floor(s, n),
    ensures
        sqrt_floor(n) == s,
{
    let c = sqrt_floor(n);
    assert(is_sqrt_floor(c, n));
    assert(c == s) by (nonlinear_arith)
        requires
            s >= 0,
            s * s <= n,
            (s + 1) * (s + 1) > n,
            c >= 0,
            c * c <= n,
            (c + 1) * (c + 1) > n,
    ;
}

/// Truncated division by a positive divisor is monotone in the dividend.
pub proof fn lemma_tdiv_mono(a1: int, a2: int, b: int)
    requires
        a1 <= a2,
        b > 0,
    ensures
        tdiv_s(a1, b) <= tdiv_s(a2, b),
{
    if a1 >= 0 {
        lemma_div_is_ordered(a1, a2, b);
    } else if a2 >= 0 {
        assert(tdiv_s(a1, b) <= 0) by {
            lemma_div_is_ordered(0, -a1, b);
        }
        assert(tdiv_s(a2, b) >= 0) by {
            lemma_div_is_ordered(0, a2, b);
        }
    } else {
        lemma_div_is_ordered(-a2, -a1, b);
    }
}

/// One is the multiplicative unit on in-range values.
pub proof fn lemma_fmul_one(a: Fixed)
    requires
        -0x7fff_ffff_ffff_ffffi64 <= a.r,
    ensures
        fmul(a, Fixed { r: SCALE }) == a,
{
    assert(abs_s(a.r as int * SCALE as int) == abs_s(a.r as int) * (SCALE as int))
        by (nonlinear_arith);
    vstd::arithmetic::div_mod::lemma_div_multiples_vanish(abs_s(a.r as int), SCALE as int);
}

/// Zero annihilates a fixed-point product.
pub proof fn lemma_fmul_zero(a: Fixed)
    ensures
        fmul(a, Fixed { r: 0 }) == (Fixed { r: 0 }),
{
    assert(a.r as int * 0 == 0) by (nonlinear_arith);
}

/// Saturation is monotone.
pub proof fn lemma_clip_mono(a1: int, a2: int)
    requires
        a1 <= a2,
    ensures
        clip_s(a1) <= clip_s(a2),
{
}

impl Fixed {
    /// The fixed-point zero.
    pub fn zero() -> (res: Fixed)
        ensures
            res == (Fixed { r: 0 }),
    {
        Fixed { r: 0 }
    }

    /// The representation of the integer `i`.
    pub fn from_int(i: i64) -> (res: Fixed)
        ensures
            res == fint(i as int),
    {
        proof {
            lemma_i64_product_fits(i as int, SCALE as int);
        }
        let p: i128 = (i as i128) * (SCALE as i128);
        Fixed { r: clip128(p) }
    }

    /// Saturating fixed-point addition.
    pub fn add(self, o: Fixed) -> (res: Fixed)
        ensures
            res == fadd(self, o),
    {
        let s: i128 = (self.r as i128) + (o.r as i128);
        Fixed { r: clip128(s) }
    }

    /// Saturating fixed-point subtraction.
    pub fn sub(self, o: Fixed) -> (res: Fixed)
        ensures
            res == fsub(self, o),
    {
        let s: i128 = (self.r as i128) - (o.r as i128);
        Fixed { r: clip128(s) }
    }

    /// Saturating fixed-point negation.
    pub fn neg(self) -> (res: Fixed)
        ensures
            res == fneg(self),
    {
        let s: i128 = -(self.r as i128);
        Fixed { r: clip128(s) }
    }

    /// Saturating fixed-point multiplication, truncated toward zero.
    pub fn mul(self, o: Fixed) -> (res: Fixed)
        ensures
            res == fmul(self, o),
    {
        proof {
            lemma_i64_product_fits(self.r as int, o.r as int);
        }
        let p: i128 = (self.r as i128) * (o.r as i128);
        let q: i128 = tdiv128(p, SCALE as i128);
        Fixed { r: clip128(q) }
    }

    /// Saturating fixed-point division, truncated toward zero; zero when the
    /// divisor is zero.
    pub fn div(self, o: Fixed) -> (res: Fixed)
        ensures
            res == fdiv(self, o),
    {
        if o.r == 0 {
            Fixed { r: 0 }
        } else {
            proof {
                lemma_i64_product_fits(self.r as int, SCALE as int);
            }
            let p: i128 = (self.r as i128) * (SCALE as i128);
            let q: i128 = tdiv128(p, o.r as i128);
            Fixed { r: clip128(q) }
        }
    }

    /// The whole part of the value, truncated toward zero.
    pub fn trunc(self) -> (res: i64)
        ensures
            res as int == tdiv_s(self.r as int, SCALE as int),
    {
        let m: i128 = self.r as i128;
        let q: i128 = tdiv128(m, SCALE as i128);
        proof {
            lemma_div_is_ordered(abs_s(m as int), 0x8000_0000_0000_0000, SCALE as int);
            assert(0x8000_0000_0000_0000int / 65536int == 0x8000_0000_0000i64 as int)
                by (nonlinear_arith);
        }
        q as i64
    }

    /// Fixed-point square root: zero on nonpositive input, else the floor
    /// square root at the raw scale.
    pub fn sqrt(self) -> (res: Fixed)
        ensures
            res == fsqrt(self),
            res.r >= 0,
    {
        if self.r <= 0 {
            Fixed { r: 0 }
        } else {
            proof {
                assert((self.r as u128) * (SCALE as u128) < 0x4000_0000_0000_0000_0000_0000_0000_0000u128)
                    by (nonlinear_arith)
                    requires
                        0 < self.r <= 0x7fff_ffff_ffff_ffffi64,
                ;
            }
            let n: u128 = (self.r as u128) * (SCALE as u128);
            let s: u64 = isqrt(n);
            proof {
                lemma_sqrt_floor_unique(n as int, s as int);
                assert((s as int) * (s as int) <= n as int);
                assert(n as int <= 0x7fff_ffff_ffff_ffff_0000) by (nonlinear_arith)
                    requires
                        n as int == (self.r as int) * (SCALE as int),
                        0 < self.r <= 0x7fff_ffff_ffff_ffffi64,
                ;
                assert(s < 0x1_0000_0000_0000u64) by (nonlinear_arith)
                    requires
                        (s as int) * (s as int) <= n as int,
                        n as int <= 0x7fff_ffff_ffff_ffff_0000,
                ;
            }
            Fixed { r: s as i64 }
        }
    }
}

/// The product of two `i64` values lies strictly inside the `i128` range.
proof fn lemma_i64_product_fits(a: int, b: int)
    requires
        -0x8000_0000_0000_0000 <= a <= 0x7fff_ffff_ffff_ffff,
        -0x8000_0000_0000_0000 <= b <= 0x7fff_ffff_ffff_ffff,
    ensures
        i128::MIN < a * b <= i128::MAX,
{
    assert(i128::MIN < a * b <= i128::MAX) by (nonlinear_arith)
        requires
            -0x8000_0000_0000_0000 <= a <= 0x7fff_ffff_ffff_ffff,
            -0x8000_0000_0000_0000 <= b <= 0x7fff_ffff_ffff_ffff,
    ;
}

/// Saturates an `i128` into the raw range of `Fixed`.
fn clip128(a: i128) -> (res: i64)
    ensures
        res as int == clip_s(a as int),
{
    if a > RAW_MAX as i128 {
        RAW_MAX
    } else if a < -(RAW_MAX as i128) {
        -RAW_MAX
    } else {
        a as i64
    }
}

/// Division of `i128` values truncated toward zero, through unsigned
/// magnitudes.
fn tdiv128(a: i128, b: i128) -> (res: i128)
    requires
        b != 0,
        a > i128::MIN,
        b > i128::MIN,
    ensures
        res == tdiv_s(a as int, b as int),
{
    let ma: u128 = if a >= 0 {
        a as u128
    } else {
        (-a) as u128
    };
    let mb: u128 = if b >= 0 {
        b as u128
    } else {
        (-b) as u128
    };
    let q: u128 = ma / mb;
    proof {
        assert(ma as int == abs_s(a as int));
        assert(mb as int == abs_s(b as int));
        assert(q as int == abs_s(a as int) / abs_s(b as int));
        assert(q <= ma) by {
            lemma_div_is_ordered(q as int, ma as int, 1);
            assert(ma as int / mb as int <= ma as int / 1) by {
                vstd::arithmetic::div_mod::lemma_div_is_ordered_by_denominator(
                    ma as int,
                    1,
                    mb as int,
                );
            }
        }
    }
    if (a >= 0) == (b >= 0) {
        q as i128
    } else {
        -(q as i128)
    }
}

/// Floor square root of a `u128` below `2^126`, by bisection.
fn isqrt(n: u128) -> (res: u64)
    requires
        n < 0x4000_0000_0000_0000_0000_0000_0000_0000u128,
    ensures
        is_sqrt_floor(res as int, n as int),
{
    let mut lo: u128 = 0;
    let mut hi: u128 = 0x8000_0000_0000_0000u128;
    proof {
        assert((hi as int) * (hi as int) > n as int) by (nonlinear_arith)
            requires
                hi == 0x8000_0000_0000_0000u128,
                n < 0x4000_0000_0000_0000_0000_0000_0000_0000u128,
        ;
    }
    while lo + 1 < hi
        invariant
            lo < hi,
            hi <= 0x8000_0000_0000_0000u128,
            (lo as int) * (lo as int) <= n as int,
            (hi as int) * (hi as int) > n as int,
        decreases hi - lo,
    {
        let mid: u128 = lo + (hi - lo) / 2;
        assert(lo < mid && mid < hi);
        proof {
            assert((mid as int) * (mid as int) <= 0x4000_0000_0000_0000_0000_0000_0000_0000)
                by (nonlinear_arith)
                requires
                    0 <= mid < 0x8000_0000_0000_0000u128,
            ;
        }
        if mid * mid <= n {
            lo = mid;
        } else {
            hi = mid;
        }
    }
    proof {
        assert(hi == lo + 1);
    }
    lo as u64
}

} // verus!
