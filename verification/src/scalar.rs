//! Exact rational scalars.
//!
//! Every numeric quantity of the compiler (lengths, opacities, transform
//! entries, text advances) is a rational number `num / den` with `den > 0`.
//! Arithmetic is exact whenever the raw result fits an `i64` pair; otherwise
//! the value degrades to the truncated integer quotient, clamped to the
//! `i64` range, which the specification functions state precisely.

use vstd::prelude::*;

verus! {

#[derive(Clone, Copy, Debug)]
pub struct Scalar {
    pub num: i64,
    pub den: i64,
}

impl Scalar {
    /// Well-formed scalars keep a positive denominator.
    pub open spec fn wf(self) -> bool {
        self.den > 0
    }
}

/// Two rationals denote the same number: cross products agree.
pub open spec fn rat_eq(a: Scalar, b: Scalar) -> bool {
    a.num * b.den == b.num * a.den
}

/// `a` denotes a strictly smaller number than `b` (denominators positive).
pub open spec fn rat_lt(a: Scalar, b: Scalar) -> bool {
    a.num * b.den < b.num * a.den
}

/// `a` denotes a number no greater than `b` (denominators positive).
pub open spec fn rat_le(a: Scalar, b: Scalar) -> bool {
    a.num * b.den <= b.num * a.den
}

pub open spec fn fits_i64(x: int) -> bool {
    i64::MIN <= x <= i64::MAX
}

pub open spec fn clamp_i64(x: int) -> i64 {
    if x > i64::MAX {
        i64::MAX
    } else if x < i64::MIN {
        i64::MIN
    } else {
        x as i64
    }
}

/// Integer division truncated toward zero, for a positive divisor.
pub open spec fn trunc_div(n: int, d: int) -> int
    recommends
        d > 0,
{
    if n >= 0 {
        n / d
    } else {
        -((-n) / d)
    }
}

/// Renormalisation of a raw rational `n / d` (with `d > 0`) into a `Scalar`:
/// exact when both parts fit an `i64`, else the clamped truncated quotient.
pub open spec fn rat_norm(n: int, d: int) -> Scalar
    recommends
        d > 0,
{
    if fits_i64(n) && fits_i64(d) {
        Scalar { num: n as i64, den: d as i64 }
    } else {
        Scalar { num: clamp_i64(trunc_div(n, d)), den: 1 }
    }
}

pub open spec fn rat_mul(a: Scalar, b: Scalar) -> Scalar {
    rat_norm(a.num * b.num, a.den * b.den)
}

pub open spec fn rat_add(a: Scalar, b: Scalar) -> Scalar {
    rat_norm(a.num * b.den + b.num * a.den, a.den * b.den)
}

pub open spec fn rat_neg(a: Scalar) -> Scalar {
    if fits_i64(-a.num) {
        Scalar { num: (-a.num) as i64, den: a.den }
    } else {
        Scalar { num: i64::MAX, den: a.den }
    }
}

pub open spec fn rat_sub(a: Scalar, b: Scalar) -> Scalar {
    rat_add(a, rat_neg(b))
}

/// Reciprocal of a nonzero rational.
pub open spec fn rat_inv(a: Scalar) -> Scalar
    recommends
        a.num != 0,
{
    if a.num > 0 {
        Scalar { num: a.den, den: a.num }
    } else if a.num > i64::MIN {
        Scalar { num: -a.den as i64, den: (-a.num) as i64 }
    } else {
        Scalar { num: -a.den as i64, den: i64::MAX }
    }
}

pub open spec fn rat_min(a: Scalar, b: Scalar) -> Scalar {
    if rat_lt(b, a) {
        b
    } else {
        a
    }
}

pub open spec fn rat_max(a: Scalar, b: Scalar) -> Scalar {
    if rat_lt(a, b) {
        b
    } else {
        a
    }
}

/// Bounds of a product of two `i64` values, well inside the `i128` range.
pub proof fn lemma_prod_i64(a: int, b: int)
    requires
        i64::MIN <= a <= i64::MAX,
        i64::MIN <= b <= i64::MAX,
    ensures
        -0x4000_0000_0000_0000_0000_0000_0000_0000 <= a * b,
        a * b <= 0x4000_0000_0000_0000_0000_0000_0000_0000,
        a >= 1 && b >= 1 ==> a * b >= 1,
        b >= 1 ==> -0x3fff_ffff_ffff_ffff_8000_0000_0000_0000 <= a * b
            <= 0x3fff_ffff_ffff_ffff_0000_0000_0000_0001,
{
    assert(-0x4000_0000_0000_0000_0000_0000_0000_0000 <= a * b
        && a * b <= 0x4000_0000_0000_0000_0000_0000_0000_0000
        && (a >= 1 && b >= 1 ==> a * b >= 1)
        && (b >= 1 ==> -0x3fff_ffff_ffff_ffff_8000_0000_0000_0000 <= a * b
            <= 0x3fff_ffff_ffff_ffff_0000_0000_0000_0001)) by (nonlinear_arith)
        requires
            i64::MIN <= a <= i64::MAX,
            i64::MIN <= b <= i64::MAX,
    ;
}

impl Scalar {
    /// The rational `num / den`.
    pub fn new(num: i64, den: i64) -> (r: Scalar)
        requires
            den > 0,
        ensures
            r == (Scalar { num, den }),
            r.wf(),
    {
        Scalar { num, den }
    }

    /// The integer `n` as a rational.
    pub fn from_int(n: i64) -> (r: Scalar)
        ensures
            r == (Scalar { num: n, den: 1 }),
            r.wf(),
    {
        Scalar { num: n, den: 1 }
    }

    pub fn zero() -> (r: Scalar)
        ensures
            r == (Scalar { num: 0, den: 1 }),
            r.wf(),
    {
        Scalar { num: 0, den: 1 }
    }

    pub fn one() -> (r: Scalar)
        ensures
            r == (Scalar { num: 1, den: 1 }),
            r.wf(),
    {
        Scalar { num: 1, den: 1 }
    }

    pub fn is_zero(&self) -> (r: bool)
        requires
            self.wf(),
        ensures
            r == (self.num == 0),
    {
        self.num == 0
    }

    /// Strictly positive as a rational number.
    pub fn is_pos(&self) -> (r: bool)
        requires
            self.wf(),
        ensures
            r == rat_lt(Scalar { num: 0, den: 1 }, *self),
    {
        self.num > 0
    }

    pub fn lt(&self, other: &Scalar) -> (r: bool)
        requires
            self.wf(),
            other.wf(),
        ensures
            r == rat_lt(*self, *other),
    {
        proof {
            lemma_prod_i64(self.num as int, other.den as int);
            lemma_prod_i64(other.num as int, self.den as int);
        }
        let l: i128 = self.num as i128 * other.den as i128;
        let rr: i128 = other.num as i128 * self.den as i128;
        l < rr
    }

    pub fn le(&self, other: &Scalar) -> (r: bool)
        requires
            self.wf(),
            other.wf(),
        ensures
            r == rat_le(*self, *other),
    {
        proof {
            lemma_prod_i64(self.num as int, other.den as int);
            lemma_prod_i64(other.num as int, self.den as int);
        }
        let l: i128 = self.num as i128 * other.den as i128;
        let rr: i128 = other.num as i128 * self.den as i128;
        l <= rr
    }

    pub fn mul(&self, other: &Scalar) -> (r: Scalar)
        requires
            self.wf(),
            other.wf(),
        ensures
            r == rat_mul(*self, *other),
            r.wf(),
    {
        proof {
            lemma_prod_i64(self.num as int, other.num as int);
            lemma_prod_i64(self.den as int, other.den as int);
        }
        let n: i128 = self.num as i128 * other.num as i128;
        let d: i128 = self.den as i128 * other.den as i128;
        norm_exec(n, d)
    }

    pub fn add(&self, other: &Scalar) -> (r: Scalar)
        requires
            self.wf(),
            other.wf(),
        ensures
            r == rat_add(*self, *other),
            r.wf(),
    {
        proof {
            lemma_prod_i64(self.num as int, other.den as int);
            lemma_prod_i64(other.num as int, self.den as int);
            lemma_prod_i64(self.den as int, other.den as int);
        }
        let n: i128 = self.num as i128 * other.den as i128 + other.num as i128
            * self.den as i128;
        let d: i128 = self.den as i128 * other.den as i128;
        norm_exec(n, d)
    }

    pub fn neg(&self) -> (r: Scalar)
        requires
            self.wf(),
        ensures
            r == rat_neg(*self),
            r.wf(),
    {
        if self.num > i64::MIN {
            Scalar { num: -self.num, den: self.den }
        } else {
            Scalar { num: i64::MAX, den: self.den }
        }
    }

    pub fn sub(&self, other: &Scalar) -> (r: Scalar)
        requires
            self.wf(),
            other.wf(),
        ensures
            r == rat_sub(*self, *other),
            r.wf(),
    {
        let n = self.neg_of(other);
        self.add(&n)
    }

    fn neg_of(&self, other: &Scalar) -> (r: Scalar)
        requires
            other.wf(),
        ensures
            r == rat_neg(*other),
            r.wf(),
    {
        other.neg()
    }

    /// Reciprocal; the value must be nonzero.
    pub fn inv(&self) -> (r: Scalar)
        requires
            self.wf(),
            self.num != 0,
        ensures
            r == rat_inv(*self),
            r.wf(),
    {
        if self.num > 0 {
            Scalar { num: self.den, den: self.num }
        } else if self.num > i64::MIN {
            Scalar { num: -self.den, den: -self.num }
        } else {
            Scalar { num: -self.den, den: i64::MAX }
        }
    }

    pub fn min(&self, other: &Scalar) -> (r: Scalar)
        requires
            self.wf(),
            other.wf(),
        ensures
            r == rat_min(*self, *other),
    {
        if other.lt(self) {
            *other
        } else {
            *self
        }
    }

    pub fn max(&self, other: &Scalar) -> (r: Scalar)
        requires
            self.wf(),
            other.wf(),
        ensures
            r == rat_max(*self, *other),
    {
        if self.lt(other) {
            *other
        } else {
            *self
        }
    }
}

/// Exec mirror of `rat_norm` for raw `i128` parts coming from products and
/// sums of `i64` pairs (so the magnitude stays well inside `i128`).
fn norm_exec(n: i128, d: i128) -> (r: Scalar)
    requires
        d > 0,
        n > i128::MIN,
    ensures
        r == rat_norm(n as int, d as int),
        r.wf(),
{
    if n >= i64::MIN as i128 && n <= i64::MAX as i128 && d <= i64::MAX as i128 {
        Scalar { num: n as i64, den: d as i64 }
    } else {
        let q: i128 = if n >= 0 {
            let un: u128 = n as u128;
            let ud: u128 = d as u128;
            let uq: u128 = un / ud;
            assert(uq <= un) by {
                vstd::arithmetic::div_mod::lemma_div_is_ordered_by_denominator(
                    un as int, 1, ud as int);
            }
            uq as i128
        } else {
            let un: u128 = (-n) as u128;
            let ud: u128 = d as u128;
            let uq: u128 = un / ud;
            assert(uq <= un) by {
                vstd::arithmetic::div_mod::lemma_div_is_ordered_by_denominator(
                    un as int, 1, ud as int);
            }
            -(uq as i128)
        };
        assert(q == trunc_div(n as int, d as int));
        if q > i64::MAX as i128 {
            Scalar { num: i64::MAX, den: 1 }
        } else if q < i64::MIN as i128 {
            Scalar { num: i64::MIN, den: 1 }
        } else {
            Scalar { num: q as i64, den: 1 }
        }
    }
}

impl PartialEq for Scalar {
    /// Equality is equality of the denoted rational numbers.
    fn eq(&self, other: &Scalar) -> (r: bool) {
        proof {
            lemma_prod_i64(self.num as int, other.den as int);
            lemma_prod_i64(other.num as int, self.den as int);
        }
        let l: i128 = self.num as i128 * other.den as i128;
        let rr: i128 = other.num as i128 * self.den as i128;
        l == rr
    }
}

impl vstd::std_specs::cmp::PartialEqSpecImpl for Scalar {
    open spec fn obeys_eq_spec() -> bool {
        true
    }

    open spec fn eq_spec(&self, other: &Scalar) -> bool {
        rat_eq(*self, *other)
    }
}

} // verus!
