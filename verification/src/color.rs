//! Solid colors with 8-bit channels, and exact alpha scaling by a rational
//! opacity.

use vstd::prelude::*;
use crate::scalar::{Scalar, trunc_div};

verus! {

#[derive(Clone, Copy, Debug, PartialEq, Eq, Structural)]
pub struct Color {
    pub r: u8,
    pub g: u8,
    pub b: u8,
    pub a: u8,
}

impl Color {
    pub fn black() -> (c: Color)
        ensures
            c == (Color { r: 0, g: 0, b: 0, a: 255 }),
    {
        Color { r: 0, g: 0, b: 0, a: 255 }
    }

    /// The color with its alpha channel multiplied by `opacity`.
    pub fn with_opacity(&self, opacity: Scalar) -> (c: Color)
        requires
            opacity.wf(),
        ensures
            c == spec_with_opacity(*self, opacity),
    {
        Color { r: self.r, g: self.g, b: self.b, a: scale_alpha(self.a, opacity) }
    }
}

pub open spec fn spec_with_opacity(c: Color, opacity: Scalar) -> Color {
    Color { r: c.r, g: c.g, b: c.b, a: spec_scale_alpha(c.a, opacity) }
}

/// `alpha * opacity`, truncated toward zero and clamped to `0 ..= 255`.
pub open spec fn spec_scale_alpha(alpha: u8, opacity: Scalar) -> u8
    recommends
        opacity.wf(),
{
    let q = trunc_div(alpha * opacity.num, opacity.den as int);
    if q < 0 {
        0
    } else if q > 255 {
        255
    } else {
        q as u8
    }
}

pub fn scale_alpha(alpha: u8, opacity: Scalar) -> (r: u8)
    requires
        opacity.wf(),
    ensures
        r == spec_scale_alpha(alpha, opacity),
{
    proof {
        crate::scalar::lemma_prod_i64(alpha as int, opacity.num as int);
    }
    let t: i128 = alpha as i128 * opacity.num as i128;
    let q: i128 = if t >= 0 {
        let uq: u128 = (t as u128) / (opacity.den as u128);
        assert(uq <= t as u128) by {
            vstd::arithmetic::div_mod::lemma_div_is_ordered_by_denominator(
                t as int, 1, opacity.den as int);
        }
        uq as i128
    } else {
        let uq: u128 = ((-t) as u128) / (opacity.den as u128);
        assert(uq <= (-t) as u128) by {
            vstd::arithmetic::div_mod::lemma_div_is_ordered_by_denominator(
                -t as int, 1, opacity.den as int);
        }
        -(uq as i128)
    };
    assert(q == trunc_div(alpha as int * opacity.num as int, opacity.den as int));
    if q < 0 {
        0
    } else if q > 255 {
        255
    } else {
        q as u8
    }
}

} // verus!
