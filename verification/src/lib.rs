//! Styling-and-layout compiler for a parsed vector-image document tree.
//!
//! Given a tree of graphic elements annotated with inheritable presentation
//! attributes, the library produces a flat sequence of fill/stroke draw
//! operations in device space, each bound to a resolved paint and an optional
//! clip region. Numeric values are exact rationals (`scalar::Scalar`), so
//! every resolution and cascade step carries a precise contract.

pub mod attrs;
pub mod color;
pub mod draw;
pub mod error;
pub mod outline;
pub mod paint;
pub mod geom;
pub mod item;
pub mod options;
pub mod length;
pub mod animate;
pub mod laws;
pub mod scalar;
pub mod scene;
pub mod text;

use vstd::prelude::*;
use crate::scalar::Scalar;
use crate::geom::{Vec2, Rect, Transform, tf_rect, tf_from_scale, tf_from_translation,
    vec2_zero};
use crate::error::Error;
use crate::item::{Item, Svg, DrawContext, LengthVector};
use crate::scene::{Scene, SceneV, scene_empty};
use crate::options::{DrawOptions, spec_options_new, spec_resolve_vector};
use crate::draw::{MAX_DEPTH, draw_to, bounds_to, spec_draw_item, spec_bounds_item};

verus! {

/// The computed view box of a document: the root document element's
/// explicit view box when its size resolves, else the root's own geometric
/// bounds under the default cascade.
pub open spec fn spec_view_box(svg: Svg, o: DrawOptions) -> Result<Option<Rect>, Error> {
    let fallback = spec_bounds_item(*svg.root, o, svg.named@, MAX_DEPTH as nat);
    match *svg.root {
        Item::Svg(tag) => match tag.view_box {
            Some(vb) => {
                let size = LengthVector {
                    x: match tag.width {
                        Some(w) => w,
                        None => vb.size.x,
                    },
                    y: match tag.height {
                        Some(h) => h,
                        None => vb.size.y,
                    },
                };
                match spec_resolve_vector(size, o.dpi, o.view_box) {
                    Err(e) => Err(e),
                    Ok(Some(sz)) => Ok(Some(Rect { origin: vec2_zero(), size: sz })),
                    Ok(None) => fallback,
                }
            },
            None => fallback,
        },
        _ => fallback,
    }
}

/// A full-document compile under the given cascade: the scene's view box is
/// the document view box mapped to device space, then the root is drawn.
pub open spec fn spec_compose_with_options(svg: Svg, o: DrawOptions) -> Result<
    SceneV,
    Error,
> {
    match spec_view_box(svg, o) {
        Err(e) => Err(e),
        Ok(vb) => {
            let scene0 = SceneV {
                view_box: match vb {
                    Some(r) => Some(tf_rect(o.transform, r)),
                    None => None,
                },
                ..scene_empty()
            };
            let (s, e) = spec_draw_item(scene0, *svg.root, o, svg.named@,
                MAX_DEPTH as nat);
            match e {
                Some(err) => Err(err),
                None => Ok(s),
            }
        },
    }
}

/// A full-document compile with an externally supplied device transform.
/// The result is a function of the document and the transform alone: two
/// compiles of the same document agree bit for bit.
pub open spec fn spec_compose(svg: Svg, transform: Transform) -> Result<SceneV, Error> {
    spec_compose_with_options(
        svg,
        DrawOptions { transform, ..spec_options_new(Scalar { num: 75, den: 1 }) },
    )
}

/// A parsed document ready to compile.
pub struct DrawSvg {
    pub svg: Svg,
}

impl DrawSvg {
    pub open spec fn wf(self) -> bool {
        self.svg.wf()
    }

    pub fn new_without_fonts(svg: Svg) -> (r: DrawSvg)
        ensures
            r.svg == svg,
    {
        DrawSvg { svg }
    }

    /// The per-compile context over this document, at the default DPI.
    pub fn ctx(&self) -> (r: DrawContext<'_>)
        ensures
            r.svg == &self.svg,
            r.dpi == (Scalar { num: 75, den: 1 }),
    {
        DrawContext::new(&self.svg)
    }

    /// Compiles the document with the identity device transform.
    pub fn compose(&self) -> (r: Result<Scene, Error>)
        requires
            self.wf(),
        ensures
            (match spec_compose(self.svg, crate::geom::tf_identity()) {
                Ok(s) => r matches Ok(sc) && sc@ =~~= s,
                Err(e) => r == Err::<Scene, Error>(e),
            }),
    {
        self.compose_with_transform(Transform::identity())
    }

    /// Compiles the document with an externally supplied device transform.
    pub fn compose_with_transform(&self, transform: Transform) -> (r: Result<Scene, Error>)
        requires
            self.wf(),
            transform.wf(),
        ensures
            (match spec_compose(self.svg, transform) {
                Ok(s) => r matches Ok(sc) && sc@ =~~= s,
                Err(e) => r == Err::<Scene, Error>(e),
            }),
    {
        let ctx = self.ctx();
        let mut options = DrawOptions::new(&ctx);
        options.transform = transform;
        self.compose_with_options(&options)
    }

    /// Compiles the document under a caller-built cascade.
    #[verifier::rlimit(100)]
    pub fn compose_with_options(&self, options: &DrawOptions) -> (r: Result<Scene, Error>)
        requires
            self.wf(),
            options.wf(),
        ensures
            (match spec_compose_with_options(self.svg, *options) {
                Ok(s) => r matches Ok(sc) && sc@ =~~= s,
                Err(e) => r == Err::<Scene, Error>(e),
            }),
    {
        let ctx = self.ctx();
        let mut scene = Scene::new();
        match self.view_box_with(options) {
            Err(e) => {
                return Err(e);
            },
            Ok(Some(vb)) => {
                scene.set_view_box(options.transform.apply_rect(&vb));
            },
            Ok(None) => {},
        }
        match draw_to(&self.svg.root, &ctx, &mut scene, options, MAX_DEPTH) {
            Err(e) => Err(e),
            Ok(_) => Ok(scene),
        }
    }

    /// Compiles the document, overriding its own view box.
    pub fn compose_with_viewbox(&self, view_box: Rect) -> (r: Result<Scene, Error>)
        requires
            self.wf(),
            view_box.wf(),
        ensures
            (match spec_compose_override(self.svg, view_box) {
                Ok(s) => r matches Ok(sc) && sc@ =~~= s,
                Err(e) => r == Err::<Scene, Error>(e),
            }),
    {
        let ctx = self.ctx();
        let options = DrawOptions::new(&ctx);
        let mut scene = Scene::new();
        scene.set_view_box(options.transform.apply_rect(&view_box));
        match draw_to(&self.svg.root, &ctx, &mut scene, &options, MAX_DEPTH) {
            Err(e) => Err(e),
            Ok(_) => Ok(scene),
        }
    }

    /// Compiles the document into an existing scene, with a device
    /// transform; the scene's own view box is left alone.
    pub fn compose_to_with_transform(&self, scene: &mut Scene, transform: Transform) ->
        (r: Result<(), Error>)
        requires
            self.wf(),
            transform.wf(),
        ensures
            ({
                let o = DrawOptions {
                    transform,
                    ..spec_options_new(Scalar { num: 75, den: 1 })
                };
                let (s, e) = spec_draw_item(old(scene)@, *self.svg.root, o,
                    self.svg.named@, MAX_DEPTH as nat);
                final(scene)@ =~~= s && (match r {
                    Ok(_) => e is None,
                    Err(err) => e == Some(err),
                })
            }),
    {
        let ctx = self.ctx();
        let mut options = DrawOptions::new(&ctx);
        options.transform = transform;
        draw_to(&self.svg.root, &ctx, scene, &options, MAX_DEPTH)
    }

    /// The computed view box (explicit if resolvable, else the root's own
    /// bounds), under the default cascade.
    pub fn view_box(&self) -> (r: Result<Option<Rect>, Error>)
        requires
            self.wf(),
        ensures
            r == spec_view_box(self.svg, spec_options_new(Scalar { num: 75, den: 1 })),
            r matches Ok(Some(b)) ==> b.wf(),
    {
        let ctx = self.ctx();
        let options = DrawOptions::new(&ctx);
        self.view_box_with(&options)
    }

    fn view_box_with(&self, options: &DrawOptions) -> (r: Result<Option<Rect>, Error>)
        requires
            self.wf(),
            options.wf(),
        ensures
            r == spec_view_box(self.svg, *options),
            r matches Ok(Some(b)) ==> b.wf(),
    {
        let ctx = self.ctx();
        match &*self.svg.root {
            Item::Svg(tag) => match &tag.view_box {
                Option::Some(vb) => {
                    let size = LengthVector {
                        x: match &tag.width {
                            Option::Some(w) => *w,
                            Option::None => vb.size.x,
                        },
                        y: match &tag.height {
                            Option::Some(h) => *h,
                            Option::None => vb.size.y,
                        },
                    };
                    match options.resolve_vector(&size) {
                        Err(e) => Err(e),
                        Ok(Some(sz)) => Ok(Some(Rect { origin: Vec2::zero(), size: sz })),
                        Ok(None) => bounds_to(&self.svg.root, &ctx, options, MAX_DEPTH),
                    }
                },
                Option::None => bounds_to(&self.svg.root, &ctx, options, MAX_DEPTH),
            },
            _ => bounds_to(&self.svg.root, &ctx, options, MAX_DEPTH),
        }
    }
}

/// A compile overriding the document's own view box.
pub open spec fn spec_compose_override(svg: Svg, view_box: Rect) -> Result<SceneV, Error> {
    let o = spec_options_new(Scalar { num: 75, den: 1 });
    let scene0 = SceneV { view_box: Some(tf_rect(o.transform, view_box)), ..scene_empty() };
    let (s, e) = spec_draw_item(scene0, *svg.root, o, svg.named@, MAX_DEPTH as nat);
    match e {
        Some(err) => Err(err),
        None => Ok(s),
    }
}

/// Compiles a single embedded glyph's vector content into an existing
/// scene, applying the vertical-flip convention that maps glyph space onto
/// text space.
pub fn draw_glyph(
    svg: &Svg,
    item: &Item,
    scene: &mut Scene,
    transform: Transform,
) -> (r: Result<(), Error>)
    requires
        svg.wf(),
        crate::item::item_wf(*item),
        transform.wf(),
    ensures
        ({
            let o = DrawOptions {
                transform: crate::geom::tf_compose(
                    transform,
                    tf_from_scale(
                        Vec2 {
                            x: Scalar { num: 1, den: 1 },
                            y: Scalar { num: -1i64, den: 1 },
                        },
                    ),
                ),
                ..spec_options_new(Scalar { num: 75, den: 1 })
            };
            let (s, e) = spec_draw_item(old(scene)@, *item, o, svg.named@,
                MAX_DEPTH as nat);
            final(scene)@ =~~= s && (match r {
                Ok(_) => e is None,
                Err(err) => e == Some(err),
            })
        }),
{
    let ctx = DrawContext::new(svg);
    let mut options = DrawOptions::new(&ctx);
    let flip = Transform::from_scale(
        Vec2 { x: Scalar::from_int(1), y: Scalar::from_int(-1) });
    options.transform = transform.compose(&flip);
    draw_to(item, &ctx, scene, &options, MAX_DEPTH)
}

} // verus!
