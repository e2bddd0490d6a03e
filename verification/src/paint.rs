//! Paints: the document-side paint attribute and the renderer-side resolved
//! paint, with gradient stop tables built on demand.

use vstd::prelude::*;
use crate::scalar::{Scalar, rat_mul};
use crate::geom::{Vec2, Transform};
use crate::color::{Color, spec_with_opacity};

verus! {

/// A paint attribute: nothing, a solid color, or a reference to a gradient
/// definition by id.
#[derive(Clone, Debug)]
pub enum Paint {
    Absent,
    Solid(Color),
    Ref(String),
}

impl Paint {
    /// A structurally equal copy.
    pub fn duplicate(&self) -> (r: Paint)
        ensures
            r == *self,
    {
        match self {
            Paint::Absent => Paint::Absent,
            Paint::Solid(c) => Paint::Solid(*c),
            Paint::Ref(id) => Paint::Ref(id.clone()),
        }
    }

    /// Whether the attribute can produce any drawing at all.
    pub fn is_visible(&self) -> (r: bool)
        ensures
            r == spec_paint_visible(*self),
    {
        match self {
            Paint::Absent => false,
            Paint::Solid(_) => true,
            Paint::Ref(_) => true,
        }
    }

    pub fn black() -> (r: Paint)
        ensures
            r == Paint::Solid(Color { r: 0, g: 0, b: 0, a: 255 }),
    {
        Paint::Solid(Color::black())
    }
}

pub open spec fn spec_paint_visible(p: Paint) -> bool {
    !(p is Absent)
}

/// A gradient stop as the document states it.
#[derive(Clone, Copy, Debug)]
pub struct GradientStop {
    pub offset: Scalar,
    pub color: Color,
    pub opacity: Scalar,
}

impl GradientStop {
    pub open spec fn wf(self) -> bool {
        self.offset.wf() && self.opacity.wf()
    }
}

/// A gradient stop with the ambient opacity baked into the alpha channel.
#[derive(Clone, Copy, Debug)]
pub struct ResolvedStop {
    pub offset: Scalar,
    pub color: Color,
}

/// One document stop under an ambient opacity.
pub open spec fn spec_resolve_stop(s: GradientStop, ambient: Scalar) -> ResolvedStop {
    ResolvedStop {
        offset: s.offset,
        color: spec_with_opacity(s.color, rat_mul(s.opacity, ambient)),
    }
}

/// A renderer paint with every numeric parameter resolved.
#[derive(Clone, Debug)]
pub enum ResolvedPaint {
    Solid(Color),
    LinearGradient {
        from: Vec2,
        to: Vec2,
        stops: Vec<ResolvedStop>,
        transform: Transform,
    },
    RadialGradient {
        center: Vec2,
        radius: Scalar,
        stops: Vec<ResolvedStop>,
        transform: Transform,
    },
}

/// View of a resolved paint, with the stop table as a sequence.
#[verifier::ext_equal]
pub enum ResolvedPaintV {
    Solid(Color),
    LinearGradient {
        from: Vec2,
        to: Vec2,
        stops: Seq<ResolvedStop>,
        transform: Transform,
    },
    RadialGradient {
        center: Vec2,
        radius: Scalar,
        stops: Seq<ResolvedStop>,
        transform: Transform,
    },
}

impl View for ResolvedPaint {
    type V = ResolvedPaintV;

    open spec fn view(&self) -> ResolvedPaintV {
        match self {
            ResolvedPaint::Solid(c) => ResolvedPaintV::Solid(*c),
            ResolvedPaint::LinearGradient { from, to, stops, transform } =>
                ResolvedPaintV::LinearGradient {
                    from: *from,
                    to: *to,
                    stops: stops@,
                    transform: *transform,
                },
            ResolvedPaint::RadialGradient { center, radius, stops, transform } =>
                ResolvedPaintV::RadialGradient {
                    center: *center,
                    radius: *radius,
                    stops: stops@,
                    transform: *transform,
                },
        }
    }
}

/// Builds the resolved stop table of a gradient under an ambient opacity.
pub fn resolve_stops(stops: &Vec<GradientStop>, ambient: Scalar) -> (r: Vec<ResolvedStop>)
    requires
        ambient.wf(),
        forall|i: int| 0 <= i < stops@.len() ==> (#[trigger] stops@[i]).wf(),
    ensures
        r@ == stops@.map_values(|s: GradientStop| spec_resolve_stop(s, ambient)),
{
    let mut out: Vec<ResolvedStop> = Vec::new();
    let mut i: usize = 0;
    while i < stops.len()
        invariant
            i <= stops@.len(),
            ambient.wf(),
            forall|j: int| 0 <= j < stops@.len() ==> (#[trigger] stops@[j]).wf(),
            out@ == stops@.subrange(0, i as int).map_values(
                |s: GradientStop| spec_resolve_stop(s, ambient)),
        decreases stops@.len() - i,
    {
        let s = stops[i];
        let op = s.opacity.mul(&ambient);
        out.push(ResolvedStop { offset: s.offset, color: s.color.with_opacity(op) });
        i = i + 1;
        proof {
            assert(stops@.subrange(0, i as int).map_values(
                |s: GradientStop| spec_resolve_stop(s, ambient)) =~= stops@.subrange(
                0, i as int - 1).map_values(
                |s: GradientStop| spec_resolve_stop(s, ambient)).push(
                spec_resolve_stop(stops@[i as int - 1], ambient)));
        }
    }
    proof {
        assert(stops@.subrange(0, stops@.len() as int) =~= stops@);
    }
    out
}

} // verus!
