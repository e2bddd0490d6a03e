//! The draw dispatcher: per-element-kind logic that turns resolved outlines
//! into fill/stroke scene operations, recurses into groups, nested documents
//! and `use` references, and computes bounding boxes. Recursion through the
//! registry is bounded by an explicit depth budget, so an id cycle surfaces
//! as a fatal error instead of diverging.

use vstd::prelude::*;
use crate::scalar::{Scalar, rat_add, rat_lt};
use crate::geom::{Vec2, Rect, Transform, tf_compose, tf_from_scale, tf_from_translation,
    tf_rect, rect_union};
use crate::length::spec_resolve_length;
use crate::error::Error;
use crate::attrs::ClipPathAttr;
use crate::outline::{Outline, Contour, ContourV, outline_wf, spec_tf_outline};
use crate::scene::{Scene, SceneV, DrawOp, DrawOpV, ClipEntryV};
use crate::item::{Item, DrawContext, spec_lookup, spec_href_target, lemma_lookup_wf,
    item_wf};
use crate::options::{DrawOptions, spec_apply, spec_resolve_vector, spec_resolve_paint,
    spec_apply_viewbox, spec_bounds};

verus! {

/// Recursion budget for `use` and nested-structure resolution; documents
/// deeper than this can only arise from reference cycles.
pub const MAX_DEPTH: u32 = 64;

/// The user-space outline of a shape element, absent when a coordinate is
/// unresolvable, an error on an unsupported unit. Non-shape elements have
/// none.
pub open spec fn spec_shape_outline(item: Item, o: DrawOptions) -> Result<
    Option<Seq<ContourV>>,
    Error,
> {
    match item {
        Item::Path(tag) => Ok(Some(tag.outline@)),
        Item::Rect(tag) => match spec_resolve_vector(tag.origin, o.dpi, o.view_box) {
            Err(e) => Err(e),
            Ok(None) => Ok(None),
            Ok(Some(p)) => match spec_resolve_vector(tag.size, o.dpi, o.view_box) {
                Err(e) => Err(e),
                Ok(None) => Ok(None),
                Ok(Some(s)) => Ok(Some(
                    seq![ContourV::Poly {
                        points: seq![
                            p,
                            Vec2 { x: rat_add(p.x, s.x), y: p.y },
                            Vec2 { x: rat_add(p.x, s.x), y: rat_add(p.y, s.y) },
                            Vec2 { x: p.x, y: rat_add(p.y, s.y) },
                        ],
                        closed: true,
                    }],
                )),
            },
        },
        Item::Polygon(tag) => Ok(Some(seq![ContourV::Poly {
            points: tag.points@,
            closed: true,
        }])),
        Item::Polyline(tag) => Ok(Some(seq![ContourV::Poly {
            points: tag.points@,
            closed: false,
        }])),
        Item::Line(tag) => match spec_resolve_vector(tag.from, o.dpi, o.view_box) {
            Err(e) => Err(e),
            Ok(None) => Ok(None),
            Ok(Some(f)) => match spec_resolve_vector(tag.to, o.dpi, o.view_box) {
                Err(e) => Err(e),
                Ok(None) => Ok(None),
                Ok(Some(t)) => Ok(Some(seq![ContourV::Poly {
                    points: seq![f, t],
                    closed: false,
                }])),
            },
        },
        Item::Ellipse(tag) => match spec_resolve_vector(tag.center, o.dpi, o.view_box) {
            Err(e) => Err(e),
            Ok(None) => Ok(None),
            Ok(Some(c)) => match spec_resolve_vector(tag.radius, o.dpi, o.view_box) {
                Err(e) => Err(e),
                Ok(None) => Ok(None),
                Ok(Some(r)) => Ok(Some(seq![ContourV::Ellipse {
                    transform: tf_compose(tf_from_translation(c), tf_from_scale(r)),
                }])),
            },
        },
        Item::Circle(tag) => match spec_resolve_vector(tag.center, o.dpi, o.view_box) {
            Err(e) => Err(e),
            Ok(None) => Ok(None),
            Ok(Some(c)) => match spec_resolve_length(tag.radius, o.dpi) {
                Err(e) => Err(e),
                Ok(None) => Ok(None),
                Ok(Some(r)) => Ok(Some(seq![ContourV::Ellipse {
                    transform: tf_compose(
                        tf_from_translation(c),
                        tf_from_scale(Vec2 { x: r, y: r }),
                    ),
                }])),
            },
        },
        _ => Ok(None),
    }
}

pub fn shape_outline(item: &Item, o: &DrawOptions) -> (r: Result<Option<Outline>, Error>)
    requires
        item_wf(*item),
        o.wf(),
    ensures
        match r {
            Err(e) => spec_shape_outline(*item, *o) == Err::<Option<Seq<ContourV>>, Error>(
                e),
            Ok(None) => spec_shape_outline(*item, *o) == Ok::<_, Error>(
                None::<Seq<ContourV>>),
            Ok(Some(outl)) => spec_shape_outline(*item, *o) == Ok::<_, Error>(
                Some(outl@)) && outline_wf(outl@),
        },
{
    match item {
        Item::Path(tag) => {
            let mut out = Outline::new();
            out.append_outline(&tag.outline);
            proof {
                assert(out@ =~= tag.outline@);
            }
            Ok(Some(out))
        },
        Item::Rect(tag) => {
            let p = match o.resolve_vector(&tag.origin) {
                Err(e) => { return Err(e); },
                Ok(None) => { return Ok(None); },
                Ok(Some(p)) => p,
            };
            let s = match o.resolve_vector(&tag.size) {
                Err(e) => { return Err(e); },
                Ok(None) => { return Ok(None); },
                Ok(Some(s)) => s,
            };
            let p1 = Vec2 { x: p.x.add(&s.x), y: p.y };
            let p2 = Vec2 { x: p.x.add(&s.x), y: p.y.add(&s.y) };
            let p3 = Vec2 { x: p.x, y: p.y.add(&s.y) };
            let out = Outline {
                contours: vec![Contour::Poly { points: vec![p, p1, p2, p3], closed: true }],
            };
            proof {
                assert(out@ =~~= spec_shape_outline(*item, *o)->Ok_0->Some_0);
            }
            Ok(Some(out))
        },
        Item::Polygon(tag) => {
            let mut pts: Vec<Vec2> = Vec::new();
            let mut i: usize = 0;
            while i < tag.points.len()
                invariant
                    i <= tag.points@.len(),
                    pts@ =~= tag.points@.subrange(0, i as int),
                decreases tag.points@.len() - i,
            {
                pts.push(tag.points[i]);
                i = i + 1;
            }
            proof {
                assert(pts@ =~= tag.points@);
            }
            let out = Outline { contours: vec![Contour::Poly { points: pts, closed: true }] };
            proof {
                assert(out@ =~~= spec_shape_outline(*item, *o)->Ok_0->Some_0);
            }
            Ok(Some(out))
        },
        Item::Polyline(tag) => {
            let mut pts: Vec<Vec2> = Vec::new();
            let mut i: usize = 0;
            while i < tag.points.len()
                invariant
                    i <= tag.points@.len(),
                    pts@ =~= tag.points@.subrange(0, i as int),
                decreases tag.points@.len() - i,
            {
                pts.push(tag.points[i]);
                i = i + 1;
            }
            proof {
                assert(pts@ =~= tag.points@);
            }
            let out = Outline { contours: vec![Contour::Poly { points: pts, closed: false }] };
            proof {
                assert(out@ =~~= spec_shape_outline(*item, *o)->Ok_0->Some_0);
            }
            Ok(Some(out))
        },
        Item::Line(tag) => {
            let f = match o.resolve_vector(&tag.from) {
                Err(e) => { return Err(e); },
                Ok(None) => { return Ok(None); },
                Ok(Some(f)) => f,
            };
            let t = match o.resolve_vector(&tag.to) {
                Err(e) => { return Err(e); },
                Ok(None) => { return Ok(None); },
                Ok(Some(t)) => t,
            };
            let out = Outline {
                contours: vec![Contour::Poly { points: vec![f, t], closed: false }],
            };
            proof {
                assert(out@ =~~= spec_shape_outline(*item, *o)->Ok_0->Some_0);
            }
            Ok(Some(out))
        },
        Item::Ellipse(tag) => {
            let c = match o.resolve_vector(&tag.center) {
                Err(e) => { return Err(e); },
                Ok(None) => { return Ok(None); },
                Ok(Some(c)) => c,
            };
            let r = match o.resolve_vector(&tag.radius) {
                Err(e) => { return Err(e); },
                Ok(None) => { return Ok(None); },
                Ok(Some(r)) => r,
            };
            let t = Transform::from_translation(c).compose(&Transform::from_scale(r));
            let out = Outline { contours: vec![Contour::Ellipse { transform: t }] };
            proof {
                assert(out@ =~~= spec_shape_outline(*item, *o)->Ok_0->Some_0);
            }
            Ok(Some(out))
        },
        Item::Circle(tag) => {
            let c = match o.resolve_vector(&tag.center) {
                Err(e) => { return Err(e); },
                Ok(None) => { return Ok(None); },
                Ok(Some(c)) => c,
            };
            let r = match o.resolve_length(&tag.radius) {
                Err(e) => { return Err(e); },
                Ok(None) => { return Ok(None); },
                Ok(Some(r)) => r,
            };
            let t = Transform::from_translation(c).compose(
                &Transform::from_scale(Vec2 { x: r, y: r }));
            let out = Outline { contours: vec![Contour::Ellipse { transform: t }] };
            proof {
                assert(out@ =~~= spec_shape_outline(*item, *o)->Ok_0->Some_0);
            }
            Ok(Some(out))
        },
        _ => Ok(None),
    }
}

/// Clip-path content folded into one outline: the direct shape children's
/// outlines under the referencing node's cascade, in device space.
pub open spec fn spec_clip_fold(items: Seq<Item>, o: DrawOptions) -> Result<
    Seq<ContourV>,
    Error,
>
    decreases items.len(),
{
    if items.len() == 0 {
        Ok(Seq::empty())
    } else {
        match spec_clip_fold(items.drop_last(), o) {
            Err(e) => Err(e),
            Ok(acc) => match spec_shape_outline(items.last(), o) {
                Err(e) => Err(e),
                Ok(None) => Ok(acc),
                Ok(Some(outl)) => Ok(acc + spec_tf_outline(o.transform, outl)),
            },
        }
    }
}

/// Once erroneous, a clip fold stays erroneous however it continues.
proof fn lemma_clip_fold_err(items: Seq<Item>, o: DrawOptions, k: int)
    requires
        0 <= k <= items.len(),
        spec_clip_fold(items.subrange(0, k), o) is Err,
    ensures
        spec_clip_fold(items, o) == spec_clip_fold(items.subrange(0, k), o),
    decreases items.len() - k,
{
    if k == items.len() {
        assert(items.subrange(0, k) =~= items);
    } else {
        assert(items.subrange(0, k + 1).drop_last() =~= items.subrange(0, k));
        lemma_clip_fold_err(items, o, k + 1);
    }
}

/// Clip-path resolution against the registry: a clip-path definition is
/// built and registered; a missing or wrong-kind target degrades to no clip
/// with a recoverable warning.
pub open spec fn spec_clip_apply(scene: SceneV, o: DrawOptions, named: Seq<(String, Item)>)
    -> Result<(SceneV, Option<usize>), Error> {
    match o.clip_path {
        ClipPathAttr::Absent => Ok((scene, None)),
        ClipPathAttr::Ref(id) => match spec_lookup(named, id@) {
            Some(Item::ClipPath(tag)) => match spec_clip_fold(tag.items@, o) {
                Err(e) => Err(e),
                Ok(outl) => Ok(
                    (
                        SceneV {
                            clips: scene.clips.push(
                                ClipEntryV { outline: outl, fill_rule: o.clip_rule }),
                            ..scene
                        },
                        Some(scene.clips.len() as usize),
                    ),
                ),
            },
            _ => Ok(
                (SceneV { warnings: scene.warnings.push(id@), ..scene }, None),
            ),
        },
    }
}

/// Emission of one resolved outline: the clip handle first, then a fill
/// operation if the fill paint resolves, then a stroke operation if the
/// stroke paint resolves and the line width is positive — fill beneath
/// stroke, two independent operations.
pub open spec fn spec_draw_outline(
    scene: SceneV,
    outline: Seq<ContourV>,
    o: DrawOptions,
    named: Seq<(String, Item)>,
) -> Result<SceneV, Error> {
    match spec_clip_apply(scene, o, named) {
        Err(e) => Err(e),
        Ok((s1, clip)) => {
            let s2 = match spec_resolve_paint(named, o.fill, o.fill_opacity, o) {
                Some(p) => SceneV {
                    paints: s1.paints.push(p),
                    draws: s1.draws.push(DrawOpV::Fill {
                        outline: spec_tf_outline(o.transform, outline),
                        paint: s1.paints.len() as usize,
                        fill_rule: o.fill_rule,
                        clip,
                    }),
                    ..s1
                },
                None => s1,
            };
            let s3 = match spec_resolve_paint(named, o.stroke, o.stroke_opacity, o) {
                Some(p) => {
                    if rat_lt(Scalar { num: 0, den: 1 }, o.stroke_style.line_width) {
                        SceneV {
                            paints: s2.paints.push(p),
                            draws: s2.draws.push(DrawOpV::Stroke {
                                outline: spec_tf_outline(o.transform, outline),
                                paint: s2.paints.len() as usize,
                                style: o.stroke_style,
                                clip,
                            }),
                            ..s2
                        }
                    } else {
                        s2
                    }
                },
                None => s2,
            };
            Ok(s3)
        },
    }
}

impl DrawOptions {
    /// Resolves the cascade's clip-path attribute into a registered clip
    /// handle.
    #[verifier::rlimit(80)]
    #[verifier::loop_isolation(false)]
    pub fn clip_path_id(&self, ctx: &DrawContext<'_>, scene: &mut Scene) -> (r: Result<
        Option<usize>,
        Error,
    >)
        requires
            self.wf(),
            ctx.wf(),
        ensures
            (match spec_clip_apply(old(scene)@, *self, ctx.svg.named@) {
                Err(e) => r == Err::<Option<usize>, Error>(e) && final(scene)@ == old(
                    scene)@,
                Ok((s2, clip)) => final(scene)@ =~~= s2 && r == Ok::<_, Error>(clip),
            }),
    {
        let id = match &self.clip_path {
            ClipPathAttr::Absent => { return Ok(None); },
            ClipPathAttr::Ref(id) => id,
        };
        let target = ctx.resolve(id);
        match target {
            Some(Item::ClipPath(tag)) => {
                proof {
                    lemma_lookup_wf(ctx.svg.named@, id@);
                    assert(spec_lookup(ctx.svg.named@, id@) matches Some(t)
                        && t is ClipPath && t->ClipPath_0 == *tag);
                }
                let mut acc = Outline::new();
                let mut i: usize = 0;
                while i < tag.items.len()
                    invariant
                        i <= tag.items@.len(),
                        self.wf(),
                        forall|j: int| 0 <= j < tag.items@.len() ==> item_wf(
                            #[trigger] tag.items@[j]),
                        spec_clip_fold(tag.items@.subrange(0, i as int), *self) == Ok::<
                            _, Error>(acc@),
                        outline_wf(acc@),
                    decreases tag.items@.len() - i,
                {
                    proof {
                        assert(tag.items@.subrange(0, i as int + 1).drop_last()
                            =~= tag.items@.subrange(0, i as int));
                        assert(tag.items@.subrange(0, i as int + 1).last()
                            == tag.items@[i as int]);
                    }
                    match shape_outline(&tag.items[i], self) {
                        Err(e) => {
                            proof {
                                assert(spec_clip_fold(tag.items@.subrange(
                                    0, i as int + 1), *self) == Err::<Seq<ContourV>,
                                    Error>(e));
                                lemma_clip_fold_err(tag.items@, *self, i as int + 1);
                                assert(spec_clip_fold(tag.items@, *self) == Err::<
                                    Seq<ContourV>, Error>(e));
                                assert(spec_clip_apply(old(scene)@, *self, ctx.svg.named@)
                                    == Err::<(SceneV, Option<usize>), Error>(e));
                            }
                            return Err(e);
                        },
                        Ok(None) => {},
                        Ok(Some(outl)) => {
                            let tfd = outl.transformed(&self.transform);
                            acc.append_outline(&tfd);
                        },
                    }
                    i = i + 1;
                }
                proof {
                    assert(tag.items@.subrange(0, tag.items@.len() as int) =~= tag.items@);
                }
                let idx = scene.push_clip_path(acc, self.clip_rule);
                Ok(Some(idx))
            },
            _ => {
                scene.push_warning(id.clone());
                Ok(None)
            },
        }
    }

    /// Draws one user-space outline under this cascade: clip, then fill,
    /// then stroke.
    pub fn draw(&self, ctx: &DrawContext<'_>, scene: &mut Scene, path: &Outline) -> (r:
        Result<(), Error>)
        requires
            self.wf(),
            ctx.wf(),
            outline_wf(path@),
        ensures
            (match spec_draw_outline(old(scene)@, path@, *self, ctx.svg.named@) {
                Err(e) => r == Err::<(), Error>(e) && final(scene)@ == old(scene)@,
                Ok(s2) => final(scene)@ =~~= s2 && r is Ok,
            }),
    {
        let clip = match self.clip_path_id(ctx, scene) {
            Err(e) => { return Err(e); },
            Ok(clip) => clip,
        };
        match self.resolve_paint(ctx, &self.fill, self.fill_opacity) {
            Some(p) => {
                let outline = path.transformed(&self.transform);
                let pid = scene.push_paint(p);
                scene.push_draw_path(DrawOp::Fill {
                    outline,
                    paint: pid,
                    fill_rule: self.fill_rule,
                    clip,
                });
            },
            None => {},
        }
        match self.resolve_paint(ctx, &self.stroke, self.stroke_opacity) {
            Some(p) => {
                if self.stroke_style.line_width.is_pos() {
                    let pid = scene.push_paint(p);
                    let outline = path.transformed(&self.transform);
                    scene.push_draw_path(DrawOp::Stroke {
                        outline,
                        paint: pid,
                        style: self.stroke_style,
                        clip,
                    });
                }
            },
            None => {},
        }
        Ok(())
    }
}

/// Sequence of draw operations of a list of elements, each under the same
/// inherited cascade, stopping at the first fatal error.
pub open spec fn spec_draw_items(
    scene: SceneV,
    items: Seq<Item>,
    o: DrawOptions,
    named: Seq<(String, Item)>,
    depth: nat,
) -> (SceneV, Option<Error>)
    decreases depth, items.len(), 1int,
{
    if items.len() == 0 {
        (scene, None)
    } else {
        let (s1, e1) = spec_draw_items(scene, items.drop_last(), o, named, depth);
        if e1 is Some {
            (s1, e1)
        } else {
            spec_draw_item(s1, items.last(), o, named, depth)
        }
    }
}

/// What drawing one element does to the scene: the element derives its own
/// cascade from its attributes, shapes emit fill/stroke operations, groups
/// and nested documents recurse, `use` redraws its target under the
/// referencing cascade, text and definitions emit nothing.
pub open spec fn spec_draw_item(
    scene: SceneV,
    item: Item,
    o: DrawOptions,
    named: Seq<(String, Item)>,
    depth: nat,
) -> (SceneV, Option<Error>)
    decreases depth, 0int, 0int,
{
    match item {
        Item::G(tag) => {
            if depth == 0 {
                (scene, Some(Error::RecursionLimit))
            } else {
                spec_draw_items(
                    scene, tag.items@, spec_apply(o, tag.attrs), named, (depth - 1) as nat)
            }
        },
        Item::Svg(tag) => {
            if depth == 0 {
                (scene, Some(Error::RecursionLimit))
            } else {
                let o1 = spec_apply(o, tag.attrs);
                match tag.view_box {
                    Some(vb) => {
                        let size = crate::item::LengthVector {
                            x: match tag.width {
                                Some(w) => w,
                                None => vb.size.x,
                            },
                            y: match tag.height {
                                Some(h) => h,
                                None => vb.size.y,
                            },
                        };
                        match spec_apply_viewbox(o1, size, vb) {
                            Err(e) => (scene, Some(e)),
                            Ok(o2) => spec_draw_items(
                                scene, tag.items@, o2, named, (depth - 1) as nat),
                        }
                    },
                    None => spec_draw_items(
                        scene, tag.items@, o1, named, (depth - 1) as nat),
                }
            }
        },
        Item::Use(tag) => {
            let o1 = spec_apply(o, tag.attrs);
            match tag.href {
                Some(href) => match spec_href_target(named, href@) {
                    Some(target) => {
                        if depth == 0 {
                            (scene, Some(Error::RecursionLimit))
                        } else {
                            spec_draw_item(scene, target, o1, named, (depth - 1) as nat)
                        }
                    },
                    None => (
                        SceneV { warnings: scene.warnings.push(href@), ..scene },
                        None,
                    ),
                },
                None => (scene, None),
            }
        },
        Item::Text(_) => (scene, None),
        Item::LinearGradient(_) => (scene, None),
        Item::RadialGradient(_) => (scene, None),
        Item::ClipPath(_) => (scene, None),
        _ => {
            let o1 = spec_apply(o, item_attrs(item));
            match spec_shape_outline(item, o1) {
                Err(e) => (scene, Some(e)),
                Ok(None) => (scene, None),
                Ok(Some(outl)) => match spec_draw_outline(scene, outl, o1, named) {
                    Err(e) => (scene, Some(e)),
                    Ok(s2) => (s2, None),
                },
            }
        },
    }
}

/// The presentation attributes of a shape element.
pub open spec fn item_attrs(item: Item) -> crate::attrs::Attrs {
    match item {
        Item::Path(tag) => tag.attrs,
        Item::Rect(tag) => tag.attrs,
        Item::Polygon(tag) => tag.attrs,
        Item::Polyline(tag) => tag.attrs,
        Item::Line(tag) => tag.attrs,
        Item::Ellipse(tag) => tag.attrs,
        Item::Circle(tag) => tag.attrs,
        Item::G(tag) => tag.attrs,
        Item::Svg(tag) => tag.attrs,
        Item::Use(tag) => tag.attrs,
        Item::Text(tag) => tag.attrs,
        Item::ClipPath(tag) => tag.attrs,
        _ => crate::attrs::spec_attrs_none(),
    }
}

/// Once erroneous, a draw fold keeps its scene and error however it
/// continues.
pub proof fn lemma_draw_items_err(
    scene: SceneV,
    items: Seq<Item>,
    o: DrawOptions,
    named: Seq<(String, Item)>,
    depth: nat,
    k: int,
)
    requires
        0 <= k <= items.len(),
        spec_draw_items(scene, items.subrange(0, k), o, named, depth).1 is Some,
    ensures
        spec_draw_items(scene, items, o, named, depth) == spec_draw_items(
            scene, items.subrange(0, k), o, named, depth),
    decreases items.len() - k,
{
    if k == items.len() {
        assert(items.subrange(0, k) =~= items);
    } else {
        assert(items.subrange(0, k + 1).drop_last() =~= items.subrange(0, k));
        lemma_draw_items_err(scene, items, o, named, depth, k + 1);
    }
}

/// Draws one element into the scene under the inherited cascade, within the
/// given recursion budget.
#[verifier::loop_isolation(false)]
#[verifier::rlimit(100)]
pub fn draw_to(
    item: &Item,
    ctx: &DrawContext<'_>,
    scene: &mut Scene,
    options: &DrawOptions,
    depth: u32,
) -> (r: Result<(), Error>)
    requires
        item_wf(*item),
        ctx.wf(),
        options.wf(),
    ensures
        final(scene)@ =~~= spec_draw_item(
            old(scene)@, *item, *options, ctx.svg.named@, depth as nat).0,
        (match r {
            Ok(_) => spec_draw_item(
                old(scene)@, *item, *options, ctx.svg.named@, depth as nat).1 is None,
            Err(e) => spec_draw_item(
                old(scene)@, *item, *options, ctx.svg.named@, depth as nat).1 == Some(e),
        }),
    decreases depth, 0int, 0int,
{
    match item {
        Item::G(tag) => {
            if depth == 0 {
                return Err(Error::RecursionLimit);
            }
            let o1 = options.apply(&tag.attrs);
            draw_items(&tag.items, ctx, scene, &o1, depth - 1)
        },
        Item::Svg(tag) => {
            if depth == 0 {
                return Err(Error::RecursionLimit);
            }
            let mut o1 = options.apply(&tag.attrs);
            match &tag.view_box {
                Option::Some(vb) => {
                    let size = crate::item::LengthVector {
                        x: match &tag.width {
                            Option::Some(w) => *w,
                            Option::None => vb.size.x,
                        },
                        y: match &tag.height {
                            Option::Some(h) => *h,
                            Option::None => vb.size.y,
                        },
                    };
                    match o1.apply_viewbox(&size, vb) {
                        Err(e) => {
                            return Err(e);
                        },
                        Ok(_) => {},
                    }
                    draw_items(&tag.items, ctx, scene, &o1, depth - 1)
                },
                Option::None => draw_items(&tag.items, ctx, scene, &o1, depth - 1),
            }
        },
        Item::Use(tag) => {
            let o1 = options.apply(&tag.attrs);
            match &tag.href {
                Option::Some(href) => match ctx.resolve_href(href) {
                    Some(target) => {
                        if depth == 0 {
                            return Err(Error::RecursionLimit);
                        }
                        proof {
                            lemma_href_target_wf(ctx.svg.named@, href@);
                        }
                        draw_to(target, ctx, scene, &o1, depth - 1)
                    },
                    None => {
                        scene.push_warning(href.clone());
                        Ok(())
                    },
                },
                Option::None => Ok(()),
            }
        },
        Item::Text(_) => Ok(()),
        Item::LinearGradient(_) => Ok(()),
        Item::RadialGradient(_) => Ok(()),
        Item::ClipPath(_) => Ok(()),
        Item::Path(tag) => draw_shape(item, &tag.attrs, ctx, scene, options),
        Item::Rect(tag) => draw_shape(item, &tag.attrs, ctx, scene, options),
        Item::Polygon(tag) => draw_shape(item, &tag.attrs, ctx, scene, options),
        Item::Polyline(tag) => draw_shape(item, &tag.attrs, ctx, scene, options),
        Item::Line(tag) => draw_shape(item, &tag.attrs, ctx, scene, options),
        Item::Ellipse(tag) => draw_shape(item, &tag.attrs, ctx, scene, options),
        Item::Circle(tag) => draw_shape(item, &tag.attrs, ctx, scene, options),
    }
}

/// A `use` target out of the registry is well-formed.
pub proof fn lemma_href_target_wf(named: Seq<(String, Item)>, href: Seq<char>)
    requires
        forall|i: int| 0 <= i < named.len() ==> item_wf((#[trigger] named[i]).1),
    ensures
        spec_href_target(named, href) matches Some(it) ==> item_wf(it),
{
    if href.len() > 0 && href[0] == '#' {
        lemma_lookup_wf(named, href.subrange(1, href.len() as int));
    }
}

/// The shared shape path: derive the element's own cascade, resolve its
/// outline, and emit fill and stroke operations.
fn draw_shape(
    item: &Item,
    attrs: &crate::attrs::Attrs,
    ctx: &DrawContext<'_>,
    scene: &mut Scene,
    options: &DrawOptions,
) -> (r: Result<(), Error>)
    requires
        item_wf(*item),
        !(*item is G),
        !(*item is Svg),
        !(*item is Use),
        !(*item is Text),
        !(*item is LinearGradient),
        !(*item is RadialGradient),
        !(*item is ClipPath),
        *attrs == item_attrs(*item),
        attrs.wf(),
        ctx.wf(),
        options.wf(),
    ensures
        final(scene)@ =~~= spec_draw_item(
            old(scene)@, *item, *options, ctx.svg.named@, 0).0,
        (match r {
            Ok(_) => spec_draw_item(
                old(scene)@, *item, *options, ctx.svg.named@, 0).1 is None,
            Err(e) => spec_draw_item(
                old(scene)@, *item, *options, ctx.svg.named@, 0).1 == Some(e),
        }),
{
    let o1 = options.apply(attrs);
    match shape_outline(item, &o1) {
        Err(e) => Err(e),
        Ok(None) => Ok(()),
        Ok(Some(outl)) => o1.draw(ctx, scene, &outl),
    }
}

/// Draws a list of elements in order, stopping at the first fatal error.
#[verifier::loop_isolation(false)]
#[verifier::rlimit(100)]
pub fn draw_items(
    items: &Vec<Item>,
    ctx: &DrawContext<'_>,
    scene: &mut Scene,
    options: &DrawOptions,
    depth: u32,
) -> (r: Result<(), Error>)
    requires
        forall|i: int| 0 <= i < items@.len() ==> item_wf(#[trigger] items@[i]),
        ctx.wf(),
        options.wf(),
    ensures
        final(scene)@ =~~= spec_draw_items(
            old(scene)@, items@, *options, ctx.svg.named@, depth as nat).0,
        (match r {
            Ok(_) => spec_draw_items(
                old(scene)@, items@, *options, ctx.svg.named@, depth as nat).1 is None,
            Err(e) => spec_draw_items(
                old(scene)@, items@, *options, ctx.svg.named@, depth as nat).1 == Some(e),
        }),
    decreases depth, items@.len(), 1int,
{
    let ghost named = ctx.svg.named@;
    let ghost d = depth as nat;
    let mut i: usize = 0;
    while i < items.len()
        invariant
            i <= items@.len(),
            spec_draw_items(old(scene)@, items@.subrange(0, i as int), *options, named, d)
                == (scene@, None::<Error>),
        decreases items@.len() - i,
    {
        proof {
            assert(items@.subrange(0, i as int + 1).drop_last() =~= items@.subrange(
                0, i as int));
            assert(items@.subrange(0, i as int + 1).last() == items@[i as int]);
        }
        let ghost pre = scene@;
        match draw_to(&items[i], ctx, scene, options, depth) {
            Ok(_) => {
                proof {
                    assert(scene@ =~~= spec_draw_item(pre, items@[i as int], *options,
                        named, d).0);
                }
            },
            Err(e) => {
                proof {
                    assert(spec_draw_items(old(scene)@, items@.subrange(0, i as int + 1),
                        *options, named, d) == (scene@, Some(e)));
                    lemma_draw_items_err(old(scene)@, items@, *options, named, d,
                        i as int + 1);
                }
                return Err(e);
            },
        }
        i = i + 1;
    }
    proof {
        assert(items@.subrange(0, items@.len() as int) =~= items@);
    }
    Ok(())
}

/// Bounding box of a sequence of user-space points.
pub open spec fn spec_pts_bbox(points: Seq<Vec2>) -> Option<Rect>
    decreases points.len(),
{
    if points.len() == 0 {
        None
    } else {
        let p = points.last();
        let pr = Rect { origin: p, size: crate::geom::vec2_zero() };
        match spec_pts_bbox(points.drop_last()) {
            None => Some(pr),
            Some(r) => Some(rect_union(r, pr)),
        }
    }
}

/// Bounding box of one contour; an ellipse contour is bounded by the image
/// of the unit square.
pub open spec fn spec_contour_bbox(c: ContourV) -> Option<Rect> {
    match c {
        ContourV::Poly { points, closed } => spec_pts_bbox(points),
        ContourV::Ellipse { transform } => Some(tf_rect(transform, unit_square())),
    }
}

pub open spec fn unit_square() -> Rect {
    Rect {
        origin: Vec2 {
            x: Scalar { num: -1i64, den: 1 },
            y: Scalar { num: -1i64, den: 1 },
        },
        size: Vec2 { x: Scalar { num: 2, den: 1 }, y: Scalar { num: 2, den: 1 } },
    }
}

pub open spec fn spec_opt_union(a: Option<Rect>, b: Option<Rect>) -> Option<Rect> {
    match (a, b) {
        (Some(x), Some(y)) => Some(rect_union(x, y)),
        (Some(x), None) => Some(x),
        (None, y) => y,
    }
}

/// Bounding box of a whole outline.
pub open spec fn spec_outline_bbox(o: Seq<ContourV>) -> Option<Rect>
    decreases o.len(),
{
    if o.len() == 0 {
        None
    } else {
        spec_opt_union(spec_outline_bbox(o.drop_last()), spec_contour_bbox(o.last()))
    }
}

pub fn pts_bbox(points: &Vec<Vec2>) -> (r: Option<Rect>)
    requires
        forall|i: int| 0 <= i < points@.len() ==> (#[trigger] points@[i]).wf(),
    ensures
        r == spec_pts_bbox(points@),
        r matches Some(b) ==> b.wf(),
    decreases points@.len(),
{
    let mut acc: Option<Rect> = None;
    let mut i: usize = 0;
    while i < points.len()
        invariant
            i <= points@.len(),
            forall|j: int| 0 <= j < points@.len() ==> (#[trigger] points@[j]).wf(),
            acc == spec_pts_bbox(points@.subrange(0, i as int)),
            acc matches Some(b) ==> b.wf(),
        decreases points@.len() - i,
    {
        proof {
            assert(points@.subrange(0, i as int + 1).drop_last() =~= points@.subrange(
                0, i as int));
            assert(points@.subrange(0, i as int + 1).last() == points@[i as int]);
        }
        let pr = Rect { origin: points[i], size: Vec2::zero() };
        acc = match acc {
            Option::None => Some(pr),
            Option::Some(r) => Some(r.union(&pr)),
        };
        i = i + 1;
    }
    proof {
        assert(points@.subrange(0, points@.len() as int) =~= points@);
    }
    acc
}

pub fn outline_bbox(o: &Outline) -> (r: Option<Rect>)
    requires
        outline_wf(o@),
    ensures
        r == spec_outline_bbox(o@),
        r matches Some(b) ==> b.wf(),
{
    let mut acc: Option<Rect> = None;
    let mut i: usize = 0;
    while i < o.contours.len()
        invariant
            i <= o.contours@.len(),
            outline_wf(o@),
            acc == spec_outline_bbox(o@.subrange(0, i as int)),
            acc matches Some(b) ==> b.wf(),
        decreases o.contours@.len() - i,
    {
        proof {
            assert(o@.subrange(0, i as int + 1).drop_last() =~= o@.subrange(0, i as int));
            assert(o@.subrange(0, i as int + 1).last() == o@[i as int]);
            assert(o@[i as int].wf());
        }
        let cb: Option<Rect> = match &o.contours[i] {
            Contour::Poly { points, closed } => pts_bbox(points),
            Contour::Ellipse { transform } => {
                let sq = Rect {
                    origin: Vec2 {
                        x: Scalar::from_int(-1),
                        y: Scalar::from_int(-1),
                    },
                    size: Vec2 { x: Scalar::from_int(2), y: Scalar::from_int(2) },
                };
                Some(transform.apply_rect(&sq))
            },
        };
        proof {
            assert(cb == spec_contour_bbox(o@[i as int]));
        }
        acc = match (acc, cb) {
            (Option::Some(x), Option::Some(y)) => Some(x.union(&y)),
            (Option::Some(x), Option::None) => Some(x),
            (Option::None, y) => y,
        };
        i = i + 1;
    }
    proof {
        assert(o@.subrange(0, o.contours@.len() as int) =~= o@);
    }
    acc
}

/// Device-space bounds of a list of elements: the union of the present
/// child bounds.
pub open spec fn spec_bounds_items(
    items: Seq<Item>,
    o: DrawOptions,
    named: Seq<(String, Item)>,
    depth: nat,
) -> Result<Option<Rect>, Error>
    decreases depth, items.len(), 1int,
{
    if items.len() == 0 {
        Ok(None)
    } else {
        match spec_bounds_items(items.drop_last(), o, named, depth) {
            Err(e) => Err(e),
            Ok(acc) => match spec_bounds_item(items.last(), o, named, depth) {
                Err(e) => Err(e),
                Ok(b) => Ok(spec_opt_union(acc, b)),
            },
        }
    }
}

/// Device-space bounds of one element, mirroring the draw logic without
/// emitting operations; absent when neither fill nor stroke is visible.
pub open spec fn spec_bounds_item(
    item: Item,
    o: DrawOptions,
    named: Seq<(String, Item)>,
    depth: nat,
) -> Result<Option<Rect>, Error>
    decreases depth, 0int, 0int,
{
    match item {
        Item::G(tag) => {
            if depth == 0 {
                Err(Error::RecursionLimit)
            } else {
                spec_bounds_items(
                    tag.items@, spec_apply(o, tag.attrs), named, (depth - 1) as nat)
            }
        },
        Item::Svg(tag) => {
            if depth == 0 {
                Err(Error::RecursionLimit)
            } else {
                let o1 = spec_apply(o, tag.attrs);
                match tag.view_box {
                    Some(vb) => {
                        let size = crate::item::LengthVector {
                            x: match tag.width {
                                Some(w) => w,
                                None => vb.size.x,
                            },
                            y: match tag.height {
                                Some(h) => h,
                                None => vb.size.y,
                            },
                        };
                        match spec_apply_viewbox(o1, size, vb) {
                            Err(e) => Err(e),
                            Ok(o2) => spec_bounds_items(
                                tag.items@, o2, named, (depth - 1) as nat),
                        }
                    },
                    None => spec_bounds_items(tag.items@, o1, named, (depth - 1) as nat),
                }
            }
        },
        Item::Use(tag) => {
            let o1 = spec_apply(o, tag.attrs);
            match tag.href {
                Some(href) => match spec_href_target(named, href@) {
                    Some(target) => {
                        if depth == 0 {
                            Err(Error::RecursionLimit)
                        } else {
                            spec_bounds_item(target, o1, named, (depth - 1) as nat)
                        }
                    },
                    None => Ok(None),
                },
                None => Ok(None),
            }
        },
        Item::Text(_) => Ok(None),
        Item::LinearGradient(_) => Ok(None),
        Item::RadialGradient(_) => Ok(None),
        Item::ClipPath(_) => Ok(None),
        _ => {
            let o1 = spec_apply(o, item_attrs(item));
            match spec_shape_outline(item, o1) {
                Err(e) => Err(e),
                Ok(None) => Ok(None),
                Ok(Some(outl)) => match spec_outline_bbox(outl) {
                    None => Ok(None),
                    Some(r) => Ok(spec_bounds(o1, r)),
                },
            }
        },
    }
}

/// Once erroneous, a bounds fold stays erroneous however it continues.
pub proof fn lemma_bounds_items_err(
    items: Seq<Item>,
    o: DrawOptions,
    named: Seq<(String, Item)>,
    depth: nat,
    k: int,
)
    requires
        0 <= k <= items.len(),
        spec_bounds_items(items.subrange(0, k), o, named, depth) is Err,
    ensures
        spec_bounds_items(items, o, named, depth) == spec_bounds_items(
            items.subrange(0, k), o, named, depth),
    decreases items.len() - k,
{
    if k == items.len() {
        assert(items.subrange(0, k) =~= items);
    } else {
        assert(items.subrange(0, k + 1).drop_last() =~= items.subrange(0, k));
        lemma_bounds_items_err(items, o, named, depth, k + 1);
    }
}

/// Bounds of one element under the inherited cascade.
#[verifier::loop_isolation(false)]
#[verifier::rlimit(100)]
pub fn bounds_to(
    item: &Item,
    ctx: &DrawContext<'_>,
    options: &DrawOptions,
    depth: u32,
) -> (r: Result<Option<Rect>, Error>)
    requires
        item_wf(*item),
        ctx.wf(),
        options.wf(),
    ensures
        r == spec_bounds_item(*item, *options, ctx.svg.named@, depth as nat),
        r matches Ok(Some(b)) ==> b.wf(),
    decreases depth, 0int, 0int,
{
    match item {
        Item::G(tag) => {
            if depth == 0 {
                return Err(Error::RecursionLimit);
            }
            let o1 = options.apply(&tag.attrs);
            bounds_items(&tag.items, ctx, &o1, depth - 1)
        },
        Item::Svg(tag) => {
            if depth == 0 {
                return Err(Error::RecursionLimit);
            }
            let mut o1 = options.apply(&tag.attrs);
            match &tag.view_box {
                Option::Some(vb) => {
                    let size = crate::item::LengthVector {
                        x: match &tag.width {
                            Option::Some(w) => *w,
                            Option::None => vb.size.x,
                        },
                        y: match &tag.height {
                            Option::Some(h) => *h,
                            Option::None => vb.size.y,
                        },
                    };
                    match o1.apply_viewbox(&size, vb) {
                        Err(e) => {
                            return Err(e);
                        },
                        Ok(_) => {},
                    }
                    bounds_items(&tag.items, ctx, &o1, depth - 1)
                },
                Option::None => bounds_items(&tag.items, ctx, &o1, depth - 1),
            }
        },
        Item::Use(tag) => {
            let o1 = options.apply(&tag.attrs);
            match &tag.href {
                Option::Some(href) => match ctx.resolve_href(href) {
                    Some(target) => {
                        if depth == 0 {
                            return Err(Error::RecursionLimit);
                        }
                        proof {
                            lemma_href_target_wf(ctx.svg.named@, href@);
                        }
                        bounds_to(target, ctx, &o1, depth - 1)
                    },
                    None => Ok(None),
                },
                Option::None => Ok(None),
            }
        },
        Item::Text(_) => Ok(None),
        Item::LinearGradient(_) => Ok(None),
        Item::RadialGradient(_) => Ok(None),
        Item::ClipPath(_) => Ok(None),
        _ => {
            let o1 = options.apply(&item_attrs_exec(item));
            match shape_outline(item, &o1) {
                Err(e) => Err(e),
                Ok(None) => Ok(None),
                Ok(Some(outl)) => match outline_bbox(&outl) {
                    Option::None => Ok(None),
                    Option::Some(r) => Ok(o1.bounds(r)),
                },
            }
        },
    }
}

/// The presentation attributes of an element, as a copy.
fn item_attrs_exec(item: &Item) -> (r: crate::attrs::Attrs)
    ensures
        r == item_attrs(*item),
{
    match item {
        Item::Path(tag) => tag.attrs.duplicate(),
        Item::Rect(tag) => tag.attrs.duplicate(),
        Item::Polygon(tag) => tag.attrs.duplicate(),
        Item::Polyline(tag) => tag.attrs.duplicate(),
        Item::Line(tag) => tag.attrs.duplicate(),
        Item::Ellipse(tag) => tag.attrs.duplicate(),
        Item::Circle(tag) => tag.attrs.duplicate(),
        Item::G(tag) => tag.attrs.duplicate(),
        Item::Svg(tag) => tag.attrs.duplicate(),
        Item::Use(tag) => tag.attrs.duplicate(),
        Item::Text(tag) => tag.attrs.duplicate(),
        Item::ClipPath(tag) => tag.attrs.duplicate(),
        Item::LinearGradient(_) => crate::attrs::Attrs::default(),
        Item::RadialGradient(_) => crate::attrs::Attrs::default(),
    }
}

/// Bounds of a list of elements: the union of the present child bounds.
#[verifier::loop_isolation(false)]
#[verifier::rlimit(100)]
pub fn bounds_items(
    items: &Vec<Item>,
    ctx: &DrawContext<'_>,
    options: &DrawOptions,
    depth: u32,
) -> (r: Result<Option<Rect>, Error>)
    requires
        forall|i: int| 0 <= i < items@.len() ==> item_wf(#[trigger] items@[i]),
        ctx.wf(),
        options.wf(),
    ensures
        r == spec_bounds_items(items@, *options, ctx.svg.named@, depth as nat),
        r matches Ok(Some(b)) ==> b.wf(),
    decreases depth, items@.len(), 1int,
{
    let ghost named = ctx.svg.named@;
    let ghost d = depth as nat;
    let mut acc: Option<Rect> = None;
    let mut i: usize = 0;
    while i < items.len()
        invariant
            i <= items@.len(),
            spec_bounds_items(items@.subrange(0, i as int), *options, named, d) == Ok::<
                Option<Rect>, Error>(acc),
            acc matches Some(b) ==> b.wf(),
        decreases items@.len() - i,
    {
        proof {
            assert(items@.subrange(0, i as int + 1).drop_last() =~= items@.subrange(
                0, i as int));
            assert(items@.subrange(0, i as int + 1).last() == items@[i as int]);
        }
        match bounds_to(&items[i], ctx, options, depth) {
            Ok(b) => {
                acc = match (acc, b) {
                    (Option::Some(x), Option::Some(y)) => Some(x.union(&y)),
                    (Option::Some(x), Option::None) => Some(x),
                    (Option::None, y) => y,
                };
            },
            Err(e) => {
                proof {
                    lemma_bounds_items_err(items@, *options, named, d, i as int + 1);
                }
                return Err(e);
            },
        }
        i = i + 1;
    }
    proof {
        assert(items@.subrange(0, items@.len() as int) =~= items@);
    }
    Ok(acc)
}

} // verus!
