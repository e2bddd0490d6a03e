//! The output scene: an append-only sequence of resolved draw operations,
//! plus registered paints, clip regions, and recoverable per-node warnings.

use vstd::prelude::*;
use crate::geom::Rect;
use crate::attrs::{FillRule, StrokeStyle};
use crate::outline::{Outline, ContourV};
use crate::paint::{ResolvedPaint, ResolvedPaintV};

verus! {

/// A clip region registered with the scene.
#[derive(Clone, Debug)]
pub struct ClipEntry {
    pub outline: Outline,
    pub fill_rule: FillRule,
}

#[verifier::ext_equal]
pub struct ClipEntryV {
    pub outline: Seq<ContourV>,
    pub fill_rule: FillRule,
}

impl View for ClipEntry {
    type V = ClipEntryV;

    open spec fn view(&self) -> ClipEntryV {
        ClipEntryV { outline: self.outline@, fill_rule: self.fill_rule }
    }
}

/// One draw operation in device space. `paint` and `clip` index the scene's
/// paint and clip tables.
#[derive(Clone, Debug)]
pub enum DrawOp {
    Fill { outline: Outline, paint: usize, fill_rule: FillRule, clip: Option<usize> },
    Stroke { outline: Outline, paint: usize, style: StrokeStyle, clip: Option<usize> },
}

#[verifier::ext_equal]
pub enum DrawOpV {
    Fill { outline: Seq<ContourV>, paint: usize, fill_rule: FillRule, clip: Option<usize> },
    Stroke { outline: Seq<ContourV>, paint: usize, style: StrokeStyle, clip: Option<usize> },
}

impl View for DrawOp {
    type V = DrawOpV;

    open spec fn view(&self) -> DrawOpV {
        match self {
            DrawOp::Fill { outline, paint, fill_rule, clip } => DrawOpV::Fill {
                outline: outline@,
                paint: *paint,
                fill_rule: *fill_rule,
                clip: *clip,
            },
            DrawOp::Stroke { outline, paint, style, clip } => DrawOpV::Stroke {
                outline: outline@,
                paint: *paint,
                style: *style,
                clip: *clip,
            },
        }
    }
}

pub struct Scene {
    pub view_box: Option<Rect>,
    pub paints: Vec<ResolvedPaint>,
    pub clips: Vec<ClipEntry>,
    pub draws: Vec<DrawOp>,
    pub warnings: Vec<String>,
}

#[verifier::ext_equal]
pub struct SceneV {
    pub view_box: Option<Rect>,
    pub paints: Seq<ResolvedPaintV>,
    pub clips: Seq<ClipEntryV>,
    pub draws: Seq<DrawOpV>,
    pub warnings: Seq<Seq<char>>,
}

impl View for Scene {
    type V = SceneV;

    open spec fn view(&self) -> SceneV {
        SceneV {
            view_box: self.view_box,
            paints: self.paints@.map_values(|p: ResolvedPaint| p@),
            clips: self.clips@.map_values(|c: ClipEntry| c@),
            draws: self.draws@.map_values(|d: DrawOp| d@),
            warnings: self.warnings@.map_values(|w: String| w@),
        }
    }
}

pub open spec fn scene_empty() -> SceneV {
    SceneV {
        view_box: None,
        paints: Seq::empty(),
        clips: Seq::empty(),
        draws: Seq::empty(),
        warnings: Seq::empty(),
    }
}

impl Scene {
    pub fn new() -> (r: Scene)
        ensures
            r@ =~~= scene_empty(),
    {
        Scene {
            view_box: None,
            paints: Vec::new(),
            clips: Vec::new(),
            draws: Vec::new(),
            warnings: Vec::new(),
        }
    }

    pub fn set_view_box(&mut self, vb: Rect)
        ensures
            final(self)@ == (SceneV { view_box: Some(vb), ..old(self)@ }),
    {
        self.view_box = Some(vb);
    }

    /// Registers a paint and returns its index.
    pub fn push_paint(&mut self, p: ResolvedPaint) -> (r: usize)
        ensures
            final(self)@ =~~= (SceneV { paints: old(self)@.paints.push(p@), ..old(self)@ }),
            r == old(self)@.paints.len(),
    {
        let r = self.paints.len();
        self.paints.push(p);
        r
    }

    /// Registers a clip region and returns its index.
    pub fn push_clip_path(&mut self, outline: Outline, fill_rule: FillRule) -> (r: usize)
        ensures
            final(self)@ =~~= (SceneV {
                clips: old(self)@.clips.push(ClipEntryV { outline: outline@, fill_rule }),
                ..old(self)@
            }),
            r == old(self)@.clips.len(),
    {
        let r = self.clips.len();
        self.clips.push(ClipEntry { outline, fill_rule });
        r
    }

    /// Appends a draw operation.
    pub fn push_draw_path(&mut self, op: DrawOp)
        ensures
            final(self)@ =~~= (SceneV { draws: old(self)@.draws.push(op@), ..old(self)@ }),
    {
        self.draws.push(op);
    }

    /// Records a recoverable per-node warning.
    pub fn push_warning(&mut self, w: String)
        ensures
            final(self)@ =~~= (SceneV { warnings: old(self)@.warnings.push(w@), ..old(self)@ }),
    {
        self.warnings.push(w);
    }
}

} // verus!
