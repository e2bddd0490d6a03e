//! Time-indexed animated value composition: linear interpolation, scaling,
//! and first-defined-wins-else-merge composition of optional values.

use vstd::prelude::*;
use crate::scalar::{Scalar, rat_add, rat_sub, rat_mul};

verus! {

/// Linear interpolation from `a` to `b` with weight `t`: `a + (b - a) * t`.
pub open spec fn spec_lerp(a: Scalar, b: Scalar, t: Scalar) -> Scalar {
    rat_add(a, rat_mul(rat_sub(b, a), t))
}

pub fn lerp(a: Scalar, b: Scalar, t: Scalar) -> (r: Scalar)
    requires
        a.wf(),
        b.wf(),
        t.wf(),
    ensures
        r == spec_lerp(a, b, t),
        r.wf(),
{
    a.add(&b.sub(&a).mul(&t))
}

/// Scaling by a factor: `a * t`.
pub fn scale(a: Scalar, t: Scalar) -> (r: Scalar)
    requires
        a.wf(),
        t.wf(),
    ensures
        r == rat_mul(a, t),
        r.wf(),
{
    a.mul(&t)
}

/// Interpolation of optional values: defined only where both are.
pub open spec fn spec_opt_lerp(a: Option<Scalar>, b: Option<Scalar>, t: Scalar) -> Option<
    Scalar,
> {
    match (a, b) {
        (Some(x), Some(y)) => Some(spec_lerp(x, y, t)),
        _ => None,
    }
}

pub fn opt_lerp(a: Option<Scalar>, b: Option<Scalar>, t: Scalar) -> (r: Option<Scalar>)
    requires
        a matches Some(x) ==> x.wf(),
        b matches Some(y) ==> y.wf(),
        t.wf(),
    ensures
        r == spec_opt_lerp(a, b, t),
        r matches Some(s) ==> s.wf(),
{
    match (a, b) {
        (Option::Some(x), Option::Some(y)) => Some(lerp(x, y, t)),
        _ => None,
    }
}

/// Scaling of an optional value.
pub open spec fn spec_opt_scale(a: Option<Scalar>, t: Scalar) -> Option<Scalar> {
    match a {
        Some(x) => Some(rat_mul(x, t)),
        None => None,
    }
}

pub fn opt_scale(a: Option<Scalar>, t: Scalar) -> (r: Option<Scalar>)
    requires
        a matches Some(x) ==> x.wf(),
        t.wf(),
    ensures
        r == spec_opt_scale(a, t),
        r matches Some(s) ==> s.wf(),
{
    match a {
        Option::Some(x) => Some(scale(x, t)),
        Option::None => None,
    }
}

/// Composition of two optionally-defined values: whichever is present if
/// only one is, a blend by the override's own weight `t` if both are,
/// nothing if neither is.
pub open spec fn spec_compose_value(
    a: Option<Scalar>,
    b: Option<Scalar>,
    t: Scalar,
) -> Option<Scalar> {
    match (a, b) {
        (Some(x), Some(y)) => Some(spec_lerp(x, y, t)),
        (Some(x), None) => Some(x),
        (None, y) => y,
    }
}

pub fn compose_value(a: Option<Scalar>, b: Option<Scalar>, t: Scalar) -> (r: Option<
    Scalar,
>)
    requires
        a matches Some(x) ==> x.wf(),
        b matches Some(y) ==> y.wf(),
        t.wf(),
    ensures
        r == spec_compose_value(a, b, t),
        r matches Some(s) ==> s.wf(),
{
    match (a, b) {
        (Option::Some(x), Option::Some(y)) => Some(lerp(x, y, t)),
        (Option::Some(x), Option::None) => Some(x),
        (Option::None, y) => y,
    }
}

} // verus!
