//! The style cascade: the per-node immutable style snapshot, derived
//! top-down by merging each element's own attributes against the inherited
//! context, never mutating the parent.

use vstd::prelude::*;
use crate::scalar::{Scalar, rat_mul, rat_neg, rat_inv, rat_lt};
use crate::geom::{Vec2, Rect, Transform, tf_compose, tf_from_scale, tf_from_translation,
    tf_rect, tf_identity};
use crate::length::{Length, Axis, spec_resolve_length, spec_resolve_length_along,
    resolve_length_raw, resolve_length_along_raw};
use crate::color::spec_with_opacity;
use crate::error::Error;
use crate::attrs::{Attrs, FillRule, LineCap, LineJoin, StrokeStyle, ClipPathAttr};
use crate::paint::{Paint, ResolvedPaint, ResolvedPaintV, spec_paint_visible,
    spec_resolve_stop, resolve_stops};
use crate::item::{Item, Svg, DrawContext, LengthVector, LengthRect, spec_lookup};
use crate::geom::rect_dilate;

verus! {

/// The cascading style snapshot threaded through the element tree.
#[derive(Debug)]
pub struct DrawOptions {
    pub fill: Paint,
    pub fill_rule: FillRule,
    pub fill_opacity: Scalar,
    pub stroke: Paint,
    pub stroke_style: StrokeStyle,
    pub stroke_opacity: Scalar,
    pub opacity: Scalar,
    pub transform: Transform,
    pub clip_path: ClipPathAttr,
    pub clip_rule: FillRule,
    pub view_box: Option<Rect>,
    pub time: Scalar,
    pub dpi: Scalar,
}

pub open spec fn spec_options_new(dpi: Scalar) -> DrawOptions {
    DrawOptions {
        fill: Paint::Solid(crate::color::Color { r: 0, g: 0, b: 0, a: 255 }),
        fill_rule: FillRule::EvenOdd,
        fill_opacity: Scalar { num: 1, den: 1 },
        stroke: Paint::Absent,
        stroke_style: StrokeStyle {
            line_width: Scalar { num: 1, den: 1 },
            line_cap: LineCap::Butt,
            line_join: LineJoin::Bevel,
        },
        stroke_opacity: Scalar { num: 1, den: 1 },
        opacity: Scalar { num: 1, den: 1 },
        transform: tf_from_scale(
            Vec2 { x: Scalar { num: 10, den: 1 }, y: Scalar { num: 10, den: 1 } }),
        clip_path: ClipPathAttr::Absent,
        clip_rule: FillRule::EvenOdd,
        view_box: None,
        time: Scalar { num: 0, den: 1 },
        dpi,
    }
}

/// The style cascade rule: an element's own attributes override or compose
/// against the inherited snapshot. Opacity composes multiplicatively and is
/// never replaced; the attribute transform is local, applied after the
/// inherited transform; everything else overrides if present, else inherits.
pub open spec fn spec_apply(parent: DrawOptions, attrs: Attrs) -> DrawOptions {
    DrawOptions {
        clip_path: match attrs.clip_path {
            Option::Some(c) => c,
            Option::None => parent.clip_path,
        },
        clip_rule: match attrs.clip_rule {
            Option::Some(r) => r,
            Option::None => parent.clip_rule,
        },
        opacity: rat_mul(
            parent.opacity,
            match attrs.opacity {
                Option::Some(o) => o,
                Option::None => Scalar { num: 1, den: 1 },
            },
        ),
        transform: match attrs.transform {
            Option::Some(t) => tf_compose(parent.transform, t),
            Option::None => parent.transform,
        },
        fill: match attrs.fill {
            Option::Some(p) => p,
            Option::None => parent.fill,
        },
        fill_rule: match attrs.fill_rule {
            Option::Some(r) => r,
            Option::None => parent.fill_rule,
        },
        fill_opacity: match attrs.fill_opacity {
            Option::Some(o) => o,
            Option::None => parent.fill_opacity,
        },
        stroke: match attrs.stroke {
            Option::Some(p) => p,
            Option::None => parent.stroke,
        },
        stroke_style: StrokeStyle {
            line_width: match attrs.stroke_width {
                Option::Some(l) => l.num,
                Option::None => parent.stroke_style.line_width,
            },
            line_cap: parent.stroke_style.line_cap,
            line_join: parent.stroke_style.line_join,
        },
        stroke_opacity: match attrs.stroke_opacity {
            Option::Some(o) => o,
            Option::None => parent.stroke_opacity,
        },
        view_box: parent.view_box,
        time: parent.time,
        dpi: parent.dpi,
    }
}

pub open spec fn spec_has_fill(o: DrawOptions) -> bool {
    spec_paint_visible(o.fill) && rat_lt(Scalar { num: 0, den: 1 }, o.fill_opacity)
}

pub open spec fn spec_has_stroke(o: DrawOptions) -> bool {
    spec_paint_visible(o.stroke) && rat_lt(Scalar { num: 0, den: 1 }, o.stroke_opacity)
}

/// Device-space bounds of a user-space rectangle under this cascade:
/// stroked shapes dilate by the line width; invisible shapes have none.
pub open spec fn spec_bounds(o: DrawOptions, rect: Rect) -> Option<Rect> {
    if spec_has_stroke(o) {
        Some(tf_rect(o.transform, rect_dilate(rect, o.stroke_style.line_width)))
    } else if spec_has_fill(o) {
        Some(tf_rect(o.transform, rect))
    } else {
        None
    }
}

/// Resolution of a vector of lengths, X along the horizontal axis and Y
/// along the vertical one; absent if either component is unresolvable.
pub open spec fn spec_resolve_vector(
    v: LengthVector,
    dpi: Scalar,
    view_box: Option<Rect>,
) -> Result<Option<Vec2>, Error> {
    match spec_resolve_length_along(v.x, Axis::X, dpi, view_box) {
        Err(e) => Err(e),
        Ok(rx) => match spec_resolve_length_along(v.y, Axis::Y, dpi, view_box) {
            Err(e) => Err(e),
            Ok(ry) => match (rx, ry) {
                (Some(x), Some(y)) => Ok(Some(Vec2 { x, y })),
                _ => Ok(None),
            },
        },
    }
}

pub open spec fn spec_resolve_rect(
    r: LengthRect,
    dpi: Scalar,
    view_box: Option<Rect>,
) -> Result<Option<Rect>, Error> {
    match spec_resolve_vector(r.origin, dpi, view_box) {
        Err(e) => Err(e),
        Ok(ro) => match spec_resolve_vector(r.size, dpi, view_box) {
            Err(e) => Err(e),
            Ok(rs) => match (ro, rs) {
                (Some(origin), Some(size)) => Ok(Some(Rect { origin, size })),
                _ => Ok(None),
            },
        },
    }
}

/// View-box establishment for a nested document: rescale and translate the
/// inherited transform so that the view box maps onto the given size. A
/// degenerate or unresolvable view box leaves the cascade unchanged.
pub open spec fn spec_apply_viewbox(
    o: DrawOptions,
    size: LengthVector,
    vb: LengthRect,
) -> Result<DrawOptions, Error> {
    match spec_resolve_rect(vb, o.dpi, o.view_box) {
        Err(e) => Err(e),
        Ok(None) => Ok(o),
        Ok(Some(vbr)) => match spec_resolve_vector(size, o.dpi, o.view_box) {
            Err(e) => Err(e),
            Ok(None) => Ok(o),
            Ok(Some(sz)) => {
                if vbr.size.x.num == 0 || vbr.size.y.num == 0 {
                    Ok(o)
                } else {
                    let scale = Vec2 {
                        x: rat_mul(rat_inv(vbr.size.x), sz.x),
                        y: rat_mul(rat_inv(vbr.size.y), sz.y),
                    };
                    let shift = Vec2 {
                        x: rat_neg(vbr.origin.x),
                        y: rat_neg(vbr.origin.y),
                    };
                    Ok(DrawOptions {
                        transform: tf_compose(
                            tf_compose(o.transform, tf_from_scale(scale)),
                            tf_from_translation(shift),
                        ),
                        view_box: Some(vbr),
                        ..o
                    })
                }
            },
        },
    }
}

/// Resolution of a paint attribute under an ambient opacity: a solid color
/// always resolves; a reference resolves only to a gradient definition, and
/// a missing id or wrong-kind target is "absent", never an error.
pub open spec fn spec_resolve_paint(
    named: Seq<(String, Item)>,
    p: Paint,
    opacity: Scalar,
    o: DrawOptions,
) -> Option<ResolvedPaintV> {
    let op = rat_mul(opacity, o.opacity);
    match p {
        Paint::Absent => None,
        Paint::Solid(c) => Some(ResolvedPaintV::Solid(spec_with_opacity(c, op))),
        Paint::Ref(id) => match spec_lookup(named, id@) {
            Some(Item::LinearGradient(tag)) => Some(ResolvedPaintV::LinearGradient {
                from: tag.from,
                to: tag.to,
                stops: tag.stops@.map_values(
                    |s: crate::paint::GradientStop| spec_resolve_stop(s, op)),
                transform: tag.transform,
            }),
            Some(Item::RadialGradient(tag)) => Some(ResolvedPaintV::RadialGradient {
                center: tag.center,
                radius: tag.radius,
                stops: tag.stops@.map_values(
                    |s: crate::paint::GradientStop| spec_resolve_stop(s, op)),
                transform: tag.transform,
            }),
            _ => None,
        },
    }
}

impl DrawOptions {
    pub open spec fn wf(self) -> bool {
        &&& self.fill_opacity.wf()
        &&& self.stroke_style.wf()
        &&& self.stroke_opacity.wf()
        &&& self.opacity.wf()
        &&& self.transform.wf()
        &&& (self.view_box matches Some(vb) ==> vb.wf())
        &&& self.time.wf()
        &&& self.dpi.wf()
    }

    /// The root cascade: black fill, no stroke, full opacity, a uniform
    /// device scale of ten, no clip, no view box, time zero.
    pub fn new(ctx: &DrawContext<'_>) -> (r: DrawOptions)
        requires
            ctx.dpi.wf(),
        ensures
            r == spec_options_new(ctx.dpi),
            r.wf(),
    {
        DrawOptions {
            fill: Paint::black(),
            fill_rule: FillRule::EvenOdd,
            fill_opacity: Scalar::one(),
            stroke: Paint::Absent,
            stroke_style: StrokeStyle {
                line_width: Scalar::one(),
                line_cap: LineCap::Butt,
                line_join: LineJoin::Bevel,
            },
            stroke_opacity: Scalar::one(),
            opacity: Scalar::one(),
            transform: Transform::from_scale(
                Vec2 { x: Scalar::from_int(10), y: Scalar::from_int(10) }),
            clip_path: ClipPathAttr::Absent,
            clip_rule: FillRule::EvenOdd,
            view_box: None,
            time: Scalar::zero(),
            dpi: ctx.dpi,
        }
    }

    /// A structurally equal copy.
    pub fn duplicate(&self) -> (r: DrawOptions)
        ensures
            r == *self,
    {
        DrawOptions {
            fill: self.fill.duplicate(),
            fill_rule: self.fill_rule,
            fill_opacity: self.fill_opacity,
            stroke: self.stroke.duplicate(),
            stroke_style: self.stroke_style,
            stroke_opacity: self.stroke_opacity,
            opacity: self.opacity,
            transform: self.transform,
            clip_path: self.clip_path.duplicate(),
            clip_rule: self.clip_rule,
            view_box: self.view_box,
            time: self.time,
            dpi: self.dpi,
        }
    }

    /// Derives the child cascade from this one and an element's own
    /// attributes; pure, the parent is untouched.
    pub fn apply(&self, attrs: &Attrs) -> (r: DrawOptions)
        requires
            self.wf(),
            attrs.wf(),
        ensures
            r == spec_apply(*self, *attrs),
            r.wf(),
    {
        let one = Scalar::one();
        let own_opacity = match &attrs.opacity {
            Option::Some(o) => *o,
            Option::None => one,
        };
        DrawOptions {
            clip_path: match &attrs.clip_path {
                Option::Some(c) => c.duplicate(),
                Option::None => self.clip_path.duplicate(),
            },
            clip_rule: match &attrs.clip_rule {
                Option::Some(r) => *r,
                Option::None => self.clip_rule,
            },
            opacity: self.opacity.mul(&own_opacity),
            transform: match &attrs.transform {
                Option::Some(t) => self.transform.compose(t),
                Option::None => self.transform,
            },
            fill: match &attrs.fill {
                Option::Some(p) => p.duplicate(),
                Option::None => self.fill.duplicate(),
            },
            fill_rule: match &attrs.fill_rule {
                Option::Some(r) => *r,
                Option::None => self.fill_rule,
            },
            fill_opacity: match &attrs.fill_opacity {
                Option::Some(o) => *o,
                Option::None => self.fill_opacity,
            },
            stroke: match &attrs.stroke {
                Option::Some(p) => p.duplicate(),
                Option::None => self.stroke.duplicate(),
            },
            stroke_style: StrokeStyle {
                line_width: match &attrs.stroke_width {
                    Option::Some(l) => l.num,
                    Option::None => self.stroke_style.line_width,
                },
                line_cap: self.stroke_style.line_cap,
                line_join: self.stroke_style.line_join,
            },
            stroke_opacity: match &attrs.stroke_opacity {
                Option::Some(o) => *o,
                Option::None => self.stroke_opacity,
            },
            view_box: self.view_box,
            time: self.time,
            dpi: self.dpi,
        }
    }

    /// Composes a further local transform onto the cascade.
    pub fn transform(&mut self, t: &Transform)
        requires
            old(self).wf(),
            t.wf(),
        ensures
            *final(self) == (DrawOptions {
                transform: tf_compose(old(self).transform, *t),
                ..*old(self)
            }),
            final(self).wf(),
    {
        self.transform = self.transform.compose(t);
    }

    pub fn resolve_length(&self, length: &Length) -> (r: Result<Option<Scalar>, Error>)
        requires
            self.wf(),
            length.wf(),
        ensures
            r == spec_resolve_length(*length, self.dpi),
            r matches Ok(Some(s)) ==> s.wf(),
    {
        resolve_length_raw(length, &self.dpi)
    }

    pub fn resolve_length_along(&self, length: &Length, axis: Axis) -> (r: Result<
        Option<Scalar>,
        Error,
    >)
        requires
            self.wf(),
            length.wf(),
        ensures
            r == spec_resolve_length_along(*length, axis, self.dpi, self.view_box),
            r matches Ok(Some(s)) ==> s.wf(),
    {
        resolve_length_along_raw(length, axis, &self.dpi, &self.view_box)
    }

    pub fn resolve_vector(&self, v: &LengthVector) -> (r: Result<Option<Vec2>, Error>)
        requires
            self.wf(),
            v.wf(),
        ensures
            r == spec_resolve_vector(*v, self.dpi, self.view_box),
            r matches Ok(Some(p)) ==> p.wf(),
    {
        let x = match self.resolve_length_along(&v.x, Axis::X) {
            Ok(x) => x,
            Err(e) => {
                return Err(e);
            },
        };
        let y = match self.resolve_length_along(&v.y, Axis::Y) {
            Ok(y) => y,
            Err(e) => {
                return Err(e);
            },
        };
        match (x, y) {
            (Some(x), Some(y)) => Ok(Some(Vec2 { x, y })),
            _ => Ok(None),
        }
    }

    pub fn resolve_rect(&self, r: &LengthRect) -> (res: Result<Option<Rect>, Error>)
        requires
            self.wf(),
            r.wf(),
        ensures
            res == spec_resolve_rect(*r, self.dpi, self.view_box),
            res matches Ok(Some(rr)) ==> rr.wf(),
    {
        let origin = match self.resolve_vector(&r.origin) {
            Ok(o) => o,
            Err(e) => {
                return Err(e);
            },
        };
        let size = match self.resolve_vector(&r.size) {
            Ok(s) => s,
            Err(e) => {
                return Err(e);
            },
        };
        match (origin, size) {
            (Some(origin), Some(size)) => Ok(Some(Rect { origin, size })),
            _ => Ok(None),
        }
    }

    /// Establishes a nested document's view box on this cascade.
    pub fn apply_viewbox(&mut self, size: &LengthVector, view_box: &LengthRect) -> (r:
        Result<(), Error>)
        requires
            old(self).wf(),
            size.wf(),
            view_box.wf(),
        ensures
            (match spec_apply_viewbox(*old(self), *size, *view_box) {
                Ok(o2) => r is Ok && *final(self) == o2,
                Err(e) => r == Err::<(), Error>(e) && *final(self) == *old(self),
            }),
            final(self).wf(),
    {
        let vbr = match self.resolve_rect(view_box) {
            Ok(Some(vbr)) => vbr,
            Ok(None) => {
                return Ok(());
            },
            Err(e) => {
                return Err(e);
            },
        };
        let sz = match self.resolve_vector(size) {
            Ok(Some(sz)) => sz,
            Ok(None) => {
                return Ok(());
            },
            Err(e) => {
                return Err(e);
            },
        };
        if vbr.size.x.is_zero() || vbr.size.y.is_zero() {
            return Ok(());
        }
        let scale = Vec2 {
            x: vbr.size.x.inv().mul(&sz.x),
            y: vbr.size.y.inv().mul(&sz.y),
        };
        let shift = Vec2 { x: vbr.origin.x.neg(), y: vbr.origin.y.neg() };
        self.transform = self.transform.compose(&Transform::from_scale(scale)).compose(
            &Transform::from_translation(shift));
        self.view_box = Some(vbr);
        Ok(())
    }

    /// Device-space bounds of a user-space rectangle, absent when neither
    /// fill nor stroke is visible.
    pub fn bounds(&self, rect: Rect) -> (r: Option<Rect>)
        requires
            self.wf(),
            rect.wf(),
        ensures
            r == spec_bounds(*self, rect),
            r matches Some(b) ==> b.wf(),
    {
        let has_fill = self.fill.is_visible() && self.fill_opacity.is_pos();
        let has_stroke = self.stroke.is_visible() && self.stroke_opacity.is_pos();
        if has_stroke {
            Some(self.transform.apply_rect(&rect.dilate(self.stroke_style.line_width)))
        } else if has_fill {
            Some(self.transform.apply_rect(&rect))
        } else {
            None
        }
    }

    /// Resolves a paint attribute against the registry under an ambient
    /// opacity. An unresolvable reference yields "absent": the affected
    /// channel is skipped, siblings are unaffected.
    pub fn resolve_paint(&self, ctx: &DrawContext<'_>, paint: &Paint, opacity: Scalar) ->
        (r: Option<ResolvedPaint>)
        requires
            self.wf(),
            ctx.wf(),
            opacity.wf(),
        ensures
            match r {
                Some(p) => spec_resolve_paint(ctx.svg.named@, *paint, opacity, *self)
                    == Some(p@),
                None => spec_resolve_paint(ctx.svg.named@, *paint, opacity, *self)
                    is None,
            },
    {
        let op = opacity.mul(&self.opacity);
        match paint {
            Paint::Absent => None,
            Paint::Solid(c) => Some(ResolvedPaint::Solid(c.with_opacity(op))),
            Paint::Ref(id) => match ctx.resolve(id) {
                Some(Item::LinearGradient(tag)) => {
                    proof {
                        crate::item::lemma_lookup_wf(ctx.svg.named@, id@);
                    }
                    Some(ResolvedPaint::LinearGradient {
                        from: tag.from,
                        to: tag.to,
                        stops: resolve_stops(&tag.stops, op),
                        transform: tag.transform,
                    })
                },
                Some(Item::RadialGradient(tag)) => {
                    proof {
                        crate::item::lemma_lookup_wf(ctx.svg.named@, id@);
                    }
                    Some(ResolvedPaint::RadialGradient {
                        center: tag.center,
                        radius: tag.radius,
                        stops: resolve_stops(&tag.stops, op),
                        transform: tag.transform,
                    })
                },
                _ => None,
            },
        }
    }
}

} // verus!
