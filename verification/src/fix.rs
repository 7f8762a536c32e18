//! Fixed-point arithmetic for overlay coordinates.
//!
//! Every coordinate, camera component and scale factor in this crate is a
//! `Fix`: a signed 64-bit raw value denoting the real number
//! `raw / FIX_SCALE`.  All operations are checked; an operation whose exact
//! result does not fit the raw range yields `None`, the analogue of a
//! non-finite value, which downstream code treats as "do not draw".

use vstd::arithmetic::div_mod::{lemma_div_nonincreasing, lemma_div_pos_is_pos};
use vstd::prelude::*;

verus! {

/// Raw units per whole unit: 16 fractional bits.
pub const FIX_SCALE: i64 = 65536;

/// A fixed-point number standing for the real value `raw / FIX_SCALE`.
#[derive(Clone, Copy, PartialEq, Eq, Structural, Debug)]
pub struct Fix {
    pub raw: i64,
}

/// Truncated (round-toward-zero) integer division, defined for `b != 0`.
pub open spec fn tdiv(a: int, b: int) -> int
    recommends
        b != 0,
{
    if a == 0 {
        0
    } else if a > 0 && b > 0 {
        a / b
    } else if a < 0 && b < 0 {
        (a * -1) / (b * -1)
    } else if a < 0 {
        ((a * -1) / b) * -1
    } else {
        (a / (b * -1)) * -1
    }
}

/// Magnitude of a mathematical integer.
pub open spec fn iabs(a: int) -> int {
    if a >= 0 {
        a
    } else {
        -a
    }
}

/// Whether a mathematical value fits the raw `i64` representation.
pub open spec fn fits_raw(v: int) -> bool {
    i64::MIN <= v <= i64::MAX
}

/// `Some(v)` when the value is representable, `None` otherwise.
pub open spec fn bounded(v: int) -> Option<int> {
    if fits_raw(v) {
        Some(v)
    } else {
        None
    }
}

/// Checked addition of raw values.
pub open spec fn oadd(a: Option<int>, b: Option<int>) -> Option<int> {
    match (a, b) {
        (Some(x), Some(y)) => bounded(x + y),
        _ => None,
    }
}

/// Checked subtraction of raw values.
pub open spec fn osub(a: Option<int>, b: Option<int>) -> Option<int> {
    match (a, b) {
        (Some(x), Some(y)) => bounded(x - y),
        _ => None,
    }
}

/// Checked fixed-point multiplication of raw values: the raw result of
/// `(a / S) * (b / S)` is `a * b / S`, truncated toward zero.
pub open spec fn omul(a: Option<int>, b: Option<int>) -> Option<int> {
    match (a, b) {
        (Some(x), Some(y)) => bounded(tdiv(x * y, FIX_SCALE as int)),
        _ => None,
    }
}

/// Checked fixed-point division of raw values: the raw result of
/// `(a / S) / (b / S)` is `a * S / b`, truncated toward zero.
pub open spec fn odiv(a: Option<int>, b: Option<int>) -> Option<int> {
    match (a, b) {
        (Some(x), Some(y)) => {
            if y == 0 {
                None
            } else {
                bounded(tdiv(x * FIX_SCALE as int, y))
            }
        },
        _ => None,
    }
}

/// Checked scaling of a raw value by an integer ratio `num / den`.
pub open spec fn oratio(a: Option<int>, num: int, den: int) -> Option<int>
    recommends
        den > 0,
{
    match a {
        Some(x) => bounded(tdiv(x * num, den)),
        None => None,
    }
}

/// Raw value of a `Fix`, as a mathematical option for chaining.
pub open spec fn oval(f: Fix) -> Option<int> {
    Some(f.raw as int)
}

/// Wraps a checked raw result back into a `Fix`.
pub open spec fn as_fix(v: Option<int>) -> Option<Fix> {
    match v {
        Some(x) => Some(Fix { raw: x as i64 }),
        None => None,
    }
}

/// Truncated division never exceeds the dividend in magnitude.
pub proof fn lemma_tdiv_magnitude(a: int, b: int)
    requires
        b != 0,
    ensures
        iabs(tdiv(a, b)) <= iabs(a),
        b > 0 && a >= 0 ==> tdiv(a, b) >= 0,
        b > 0 && a <= 0 ==> tdiv(a, b) <= 0,
{
    if a == 0 {
    } else if a > 0 && b > 0 {
        lemma_div_pos_is_pos(a, b);
        lemma_div_nonincreasing(a, b);
    } else if a < 0 && b < 0 {
        lemma_div_pos_is_pos(a * -1, b * -1);
        lemma_div_nonincreasing(a * -1, b * -1);
    } else if a < 0 {
        lemma_div_pos_is_pos(a * -1, b);
        lemma_div_nonincreasing(a * -1, b);
    } else {
        lemma_div_pos_is_pos(a, b * -1);
        lemma_div_nonincreasing(a, b * -1);
    }
}

/// For an exact division by a positive divisor, truncated and Euclidean
/// division agree, and the quotient times the divisor restores the dividend.
pub proof fn lemma_tdiv_exact(a: int, b: int)
    requires
        b > 0,
        a % b == 0,
    ensures
        tdiv(a, b) == a / b,
        tdiv(a, b) * b == a,
{
    vstd::arithmetic::div_mod::lemma_fundamental_div_mod(a, b);
    let k = a / b;
    assert(a == b * k);
    if a < 0 {
        assert(-a == b * (-k)) by (nonlinear_arith)
            requires
                a == b * k,
        ;
        vstd::arithmetic::div_mod::lemma_div_multiples_vanish(-k, b);
        assert((-a) / b == -k);
        assert(tdiv(a, b) == -((a * -1) / b) == k);
    }
    assert(tdiv(a, b) * b == a) by (nonlinear_arith)
        requires
            tdiv(a, b) == k,
            a == b * k,
    ;
}

impl Fix {
    /// The fixed-point zero.
    pub fn zero() -> (r: Fix)
        ensures
            r.raw == 0,
    {
        Fix { raw: 0 }
    }

    /// Exact conversion of a small signed integer.
    pub fn from_i32(v: i32) -> (r: Fix)
        ensures
            r.raw == v * FIX_SCALE,
    {
        Fix { raw: (v as i64) * FIX_SCALE }
    }

    /// Exact conversion of an unsigned pixel count.
    pub fn from_u32(v: u32) -> (r: Fix)
        ensures
            r.raw == v * FIX_SCALE,
    {
        Fix { raw: (v as i64) * FIX_SCALE }
    }

    /// Checked addition.
    pub fn plus(self, o: Fix) -> (r: Option<Fix>)
        ensures
            r == as_fix(oadd(oval(self), oval(o))),
    {
        match self.raw.checked_add(o.raw) {
            Some(v) => Some(Fix { raw: v }),
            None => None,
        }
    }

    /// Checked subtraction.
    pub fn minus(self, o: Fix) -> (r: Option<Fix>)
        ensures
            r == as_fix(osub(oval(self), oval(o))),
    {
        match self.raw.checked_sub(o.raw) {
            Some(v) => Some(Fix { raw: v }),
            None => None,
        }
    }

    /// Checked fixed-point multiplication, truncating toward zero.
    pub fn times(self, o: Fix) -> (r: Option<Fix>)
        ensures
            r == as_fix(omul(oval(self), oval(o))),
    {
        proof {
            assert((self.raw as int) * (o.raw as int) <= 0x4000_0000_0000_0000_0000_0000_0000_0000
                && (self.raw as int) * (o.raw as int)
                >= -0x4000_0000_0000_0000_0000_0000_0000_0000) by (nonlinear_arith)
                requires
                    i64::MIN <= self.raw <= i64::MAX,
                    i64::MIN <= o.raw <= i64::MAX,
            ;
        }
        let p: i128 = (self.raw as i128) * (o.raw as i128);
        proof {
            lemma_tdiv_magnitude(p as int, FIX_SCALE as int);
        }
        let q: i128 = match p.checked_div(FIX_SCALE as i128) {
            Some(v) => v,
            None => 0,
        };
        if q >= i64::MIN as i128 && q <= i64::MAX as i128 {
            Some(Fix { raw: q as i64 })
        } else {
            None
        }
    }

    /// Checked fixed-point division, truncating toward zero; `None` for a
    /// zero divisor.
    pub fn div_by(self, o: Fix) -> (r: Option<Fix>)
        ensures
            r == as_fix(odiv(oval(self), oval(o))),
    {
        if o.raw == 0 {
            return None;
        }
        let p: i128 = (self.raw as i128) * (FIX_SCALE as i128);
        proof {
            lemma_tdiv_magnitude(p as int, o.raw as int);
        }
        let q: i128 = match p.checked_div(o.raw as i128) {
            Some(v) => v,
            None => 0,
        };
        if q >= i64::MIN as i128 && q <= i64::MAX as i128 {
            Some(Fix { raw: q as i64 })
        } else {
            None
        }
    }

    /// Checked scaling by an integer ratio `num / den`, truncating toward
    /// zero; the division happens after the multiplication, so a ratio that
    /// is exact in the integers loses nothing.
    pub fn scale_ratio(self, num: u32, den: u32) -> (r: Option<Fix>)
        requires
            den > 0,
        ensures
            r == as_fix(oratio(oval(self), num as int, den as int)),
    {
        proof {
            assert((self.raw as int) * (num as int) <= 0x8000_0000_0000_0000_0000_0000
                && (self.raw as int) * (num as int) >= -0x8000_0000_0000_0000_0000_0000)
                by (nonlinear_arith)
                requires
                    i64::MIN <= self.raw <= i64::MAX,
                    0 <= num <= u32::MAX,
            ;
        }
        let p: i128 = (self.raw as i128) * (num as i128);
        proof {
            lemma_tdiv_magnitude(p as int, den as int);
        }
        let q: i128 = match p.checked_div(den as i128) {
            Some(v) => v,
            None => 0,
        };
        if q >= i64::MIN as i128 && q <= i64::MAX as i128 {
            Some(Fix { raw: q as i64 })
        } else {
            None
        }
    }

    /// The whole part, truncated toward zero and clamped to the `u32` range.
    pub fn trunc_clamp_u32(self) -> (r: u32)
        ensures
            r == clamp_u32(tdiv(self.raw as int, FIX_SCALE as int)),
    {
        let q: i64 = match self.raw.checked_div(FIX_SCALE) {
            Some(v) => v,
            None => 0,
        };
        proof {
            lemma_tdiv_magnitude(self.raw as int, FIX_SCALE as int);
        }
        if q < 0 {
            0
        } else if q > u32::MAX as i64 {
            u32::MAX
        } else {
            q as u32
        }
    }
}

/// Clamps a mathematical integer into the `u32` range.
pub open spec fn clamp_u32(v: int) -> int {
    if v < 0 {
        0
    } else if v > u32::MAX {
        u32::MAX as int
    } else {
        v
    }
}

} // verus!
