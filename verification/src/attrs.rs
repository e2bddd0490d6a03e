//! Presentation attributes and the stroke/fill bookkeeping types that the
//! style cascade threads through the element tree.

use vstd::prelude::*;
use crate::scalar::Scalar;
use crate::geom::Transform;
use crate::length::Length;
use crate::paint::Paint;

verus! {

#[derive(Clone, Copy, Debug, PartialEq, Eq, Structural)]
pub enum FillRule {
    EvenOdd,
    Winding,
}

#[derive(Clone, Copy, Debug, PartialEq, Eq, Structural)]
pub enum LineCap {
    Butt,
    Square,
    RoundCap,
}

#[derive(Clone, Copy, Debug, PartialEq, Eq, Structural)]
pub enum LineJoin {
    Bevel,
    Miter,
    RoundJoin,
}

#[derive(Clone, Copy, Debug)]
pub struct StrokeStyle {
    pub line_width: Scalar,
    pub line_cap: LineCap,
    pub line_join: LineJoin,
}

impl StrokeStyle {
    pub open spec fn wf(self) -> bool {
        self.line_width.wf()
    }
}

/// The clip-path presentation attribute: either unset or a reference to a
/// clip-path definition by id.
#[derive(Clone, Debug)]
pub enum ClipPathAttr {
    Absent,
    Ref(String),
}

impl ClipPathAttr {
    /// A structurally equal copy.
    pub fn duplicate(&self) -> (r: ClipPathAttr)
        ensures
            r == *self,
    {
        match self {
            ClipPathAttr::Absent => ClipPathAttr::Absent,
            ClipPathAttr::Ref(id) => ClipPathAttr::Ref(id.clone()),
        }
    }
}

/// One element's own presentation attributes. An absent field means
/// "inherit".
#[derive(Clone, Debug)]
pub struct Attrs {
    pub clip_path: Option<ClipPathAttr>,
    pub clip_rule: Option<FillRule>,
    pub opacity: Option<Scalar>,
    pub transform: Option<Transform>,
    pub fill: Option<Paint>,
    pub fill_rule: Option<FillRule>,
    pub fill_opacity: Option<Scalar>,
    pub stroke: Option<Paint>,
    pub stroke_opacity: Option<Scalar>,
    pub stroke_width: Option<Length>,
}

impl Attrs {
    pub open spec fn wf(self) -> bool {
        &&& (self.opacity matches Some(s) ==> s.wf())
        &&& (self.transform matches Some(t) ==> t.wf())
        &&& (self.fill_opacity matches Some(s) ==> s.wf())
        &&& (self.stroke_opacity matches Some(s) ==> s.wf())
        &&& (self.stroke_width matches Some(l) ==> l.wf())
    }

    /// A structurally equal copy.
    pub fn duplicate(&self) -> (r: Attrs)
        ensures
            r == *self,
    {
        Attrs {
            clip_path: match &self.clip_path {
                Option::Some(c) => Some(c.duplicate()),
                Option::None => None,
            },
            clip_rule: self.clip_rule,
            opacity: self.opacity,
            transform: self.transform,
            fill: match &self.fill {
                Option::Some(p) => Some(p.duplicate()),
                Option::None => None,
            },
            fill_rule: self.fill_rule,
            fill_opacity: self.fill_opacity,
            stroke: match &self.stroke {
                Option::Some(p) => Some(p.duplicate()),
                Option::None => None,
            },
            stroke_opacity: self.stroke_opacity,
            stroke_width: self.stroke_width,
        }
    }
}

impl Default for Attrs {
    /// All attributes unset: the element inherits everything.
    fn default() -> (r: Attrs)
        ensures
            r == spec_attrs_none(),
    {
        Attrs {
            clip_path: None,
            clip_rule: None,
            opacity: None,
            transform: None,
            fill: None,
            fill_rule: None,
            fill_opacity: None,
            stroke: None,
            stroke_opacity: None,
            stroke_width: None,
        }
    }
}

pub open spec fn spec_attrs_none() -> Attrs {
    Attrs {
        clip_path: None,
        clip_rule: None,
        opacity: None,
        transform: None,
        fill: None,
        fill_rule: None,
        fill_opacity: None,
        stroke: None,
        stroke_opacity: None,
        stroke_width: None,
    }
}

} // verus!
