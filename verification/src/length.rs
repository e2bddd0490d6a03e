//! Symbolic lengths and the unit resolver.
//!
//! Absolute units convert through fixed DPI-derived rational factors; a
//! percentage resolves only against a view box; the font-relative units and
//! the pica are a deliberate scope boundary and fail loudly.

use vstd::prelude::*;
use crate::scalar::{Scalar, rat_mul};
use crate::geom::Rect;
use crate::error::Error;

verus! {

#[derive(Clone, Copy, Debug, PartialEq, Eq, Structural)]
pub enum LengthUnit {
    /// A bare number, used as-is.
    Unitless,
    /// Device pixels, used as-is.
    Px,
    /// Inches: one inch is DPI user units.
    In,
    /// Centimetres: DPI / 2.54.
    Cm,
    /// Millimetres: DPI / 25.4.
    Mm,
    /// Points: DPI / 75.
    Pt,
    /// Font-relative; unsupported.
    Em,
    /// Font-relative; unsupported.
    Ex,
    /// Picas; unsupported.
    Pc,
    /// A percentage of the current view box extent along an axis.
    Percent,
}

#[derive(Clone, Copy, Debug)]
pub struct Length {
    pub num: Scalar,
    pub unit: LengthUnit,
}

impl Length {
    pub open spec fn wf(self) -> bool {
        self.num.wf()
    }

    pub fn new(num: Scalar, unit: LengthUnit) -> (r: Length)
        ensures
            r == (Length { num, unit }),
    {
        Length { num, unit }
    }
}

#[derive(Clone, Copy, Debug, PartialEq, Eq, Structural)]
pub enum Axis {
    X,
    Y,
}

pub open spec fn unit_supported(unit: LengthUnit) -> bool {
    !(unit == LengthUnit::Em || unit == LengthUnit::Ex || unit == LengthUnit::Pc)
}

/// Scale factor of a supported absolute unit, in user units.
pub open spec fn unit_scale(unit: LengthUnit, dpi: Scalar) -> Scalar
    recommends
        unit_supported(unit),
        unit != LengthUnit::Percent,
{
    match unit {
        LengthUnit::In => dpi,
        LengthUnit::Cm => rat_mul(dpi, Scalar { num: 100, den: 254 }),
        LengthUnit::Mm => rat_mul(dpi, Scalar { num: 10, den: 254 }),
        LengthUnit::Pt => rat_mul(dpi, Scalar { num: 1, den: 75 }),
        _ => Scalar { num: 1, den: 1 },
    }
}

/// Axis-unaware resolution: absolute units scale, percentages are
/// unresolvable, unsupported units are a fatal error.
pub open spec fn spec_resolve_length(l: Length, dpi: Scalar) -> Result<
    Option<Scalar>,
    Error,
> {
    if !unit_supported(l.unit) {
        Err(Error::UnsupportedUnit)
    } else if l.unit == LengthUnit::Percent {
        Ok(None)
    } else {
        Ok(Some(rat_mul(l.num, unit_scale(l.unit, dpi))))
    }
}

/// Axis-aware resolution: a percentage selects the view box width along X
/// and its height along Y, and is unresolvable without a view box.
pub open spec fn spec_resolve_length_along(
    l: Length,
    axis: Axis,
    dpi: Scalar,
    view_box: Option<Rect>,
) -> Result<Option<Scalar>, Error> {
    if !unit_supported(l.unit) {
        Err(Error::UnsupportedUnit)
    } else if l.unit == LengthUnit::Percent {
        match view_box {
            Option::None => Ok(None),
            Option::Some(vb) => {
                let extent = if axis == Axis::X {
                    vb.size.x
                } else {
                    vb.size.y
                };
                Ok(Some(rat_mul(rat_mul(l.num, Scalar { num: 1, den: 100 }), extent)))
            },
        }
    } else {
        Ok(Some(rat_mul(l.num, unit_scale(l.unit, dpi))))
    }
}

pub fn resolve_length_raw(l: &Length, dpi: &Scalar) -> (r: Result<Option<Scalar>, Error>)
    requires
        l.wf(),
        dpi.wf(),
    ensures
        r == spec_resolve_length(*l, *dpi),
        r matches Ok(Some(s)) ==> s.wf(),
{
    match l.unit {
        LengthUnit::Em => Err(Error::UnsupportedUnit),
        LengthUnit::Ex => Err(Error::UnsupportedUnit),
        LengthUnit::Pc => Err(Error::UnsupportedUnit),
        LengthUnit::Percent => Ok(None),
        LengthUnit::In => Ok(Some(l.num.mul(dpi))),
        LengthUnit::Cm => Ok(Some(l.num.mul(&dpi.mul(&Scalar::new(100, 254))))),
        LengthUnit::Mm => Ok(Some(l.num.mul(&dpi.mul(&Scalar::new(10, 254))))),
        LengthUnit::Pt => Ok(Some(l.num.mul(&dpi.mul(&Scalar::new(1, 75))))),
        LengthUnit::Unitless => Ok(Some(l.num.mul(&Scalar::one()))),
        LengthUnit::Px => Ok(Some(l.num.mul(&Scalar::one()))),
    }
}

pub fn resolve_length_along_raw(
    l: &Length,
    axis: Axis,
    dpi: &Scalar,
    view_box: &Option<Rect>,
) -> (r: Result<Option<Scalar>, Error>)
    requires
        l.wf(),
        dpi.wf(),
        view_box matches Some(vb) ==> vb.wf(),
    ensures
        r == spec_resolve_length_along(*l, axis, *dpi, *view_box),
        r matches Ok(Some(s)) ==> s.wf(),
{
    match l.unit {
        LengthUnit::Percent => {
            match view_box {
                Option::None => Ok(None),
                Option::Some(vb) => {
                    let extent = if axis == Axis::X {
                        vb.size.x
                    } else {
                        vb.size.y
                    };
                    Ok(Some(l.num.mul(&Scalar::new(1, 100)).mul(&extent)))
                },
            }
        },
        _ => resolve_length_raw(l, dpi),
    }
}

} // verus!
