//! The element tree: a closed sum over the graphic element kinds, the
//! document that owns it, and the named-item registry used to resolve `#id`
//! references.

use vstd::prelude::*;
use crate::scalar::Scalar;
use crate::geom::{Vec2, Transform};
use crate::length::Length;
use crate::attrs::Attrs;
use crate::outline::{Outline, outline_wf};
use crate::paint::GradientStop;

verus! {

/// A point given as two symbolic lengths.
#[derive(Clone, Copy, Debug)]
pub struct LengthVector {
    pub x: Length,
    pub y: Length,
}

impl LengthVector {
    pub open spec fn wf(self) -> bool {
        self.x.wf() && self.y.wf()
    }

    pub fn new(x: Length, y: Length) -> (r: LengthVector)
        ensures
            r == (LengthVector { x, y }),
    {
        LengthVector { x, y }
    }
}

/// A rectangle given as symbolic lengths.
#[derive(Clone, Copy, Debug)]
pub struct LengthRect {
    pub origin: LengthVector,
    pub size: LengthVector,
}

impl LengthRect {
    pub open spec fn wf(self) -> bool {
        self.origin.wf() && self.size.wf()
    }

    pub fn new(origin: LengthVector, size: LengthVector) -> (r: LengthRect)
        ensures
            r == (LengthRect { origin, size }),
    {
        LengthRect { origin, size }
    }
}

#[derive(Debug)]
pub struct TagPath {
    pub outline: Outline,
    pub attrs: Attrs,
}

#[derive(Debug)]
pub struct TagRect {
    pub origin: LengthVector,
    pub size: LengthVector,
    pub attrs: Attrs,
}

#[derive(Debug)]
pub struct TagPolygon {
    pub points: Vec<Vec2>,
    pub attrs: Attrs,
}

#[derive(Debug)]
pub struct TagPolyline {
    pub points: Vec<Vec2>,
    pub attrs: Attrs,
}

#[derive(Debug)]
pub struct TagLine {
    pub from: LengthVector,
    pub to: LengthVector,
    pub attrs: Attrs,
}

#[derive(Debug)]
pub struct TagEllipse {
    pub center: LengthVector,
    pub radius: LengthVector,
    pub attrs: Attrs,
}

#[derive(Debug)]
pub struct TagCircle {
    pub center: LengthVector,
    pub radius: Length,
    pub attrs: Attrs,
}

#[derive(Debug)]
pub struct TagG {
    pub items: Vec<Item>,
    pub attrs: Attrs,
}

/// A nested document: establishes a new view box before recursing.
#[derive(Debug)]
pub struct TagSvg {
    pub view_box: Option<LengthRect>,
    pub width: Option<Length>,
    pub height: Option<Length>,
    pub items: Vec<Item>,
    pub attrs: Attrs,
}

/// A reference to another element by id, redrawn under the referencing
/// node's cascade.
#[derive(Debug)]
pub struct TagUse {
    pub href: Option<String>,
    pub attrs: Attrs,
}

/// Text content; shaping is an external capability, so the tree walk emits
/// no operations for it and layout is driven through `text::Chunk`.
#[derive(Debug)]
pub struct TagText {
    pub attrs: Attrs,
}

#[derive(Debug)]
pub struct TagLinearGradient {
    pub from: Vec2,
    pub to: Vec2,
    pub stops: Vec<GradientStop>,
    pub transform: Transform,
}

#[derive(Debug)]
pub struct TagRadialGradient {
    pub center: Vec2,
    pub radius: Scalar,
    pub stops: Vec<GradientStop>,
    pub transform: Transform,
}

/// A clip-path definition: its children supply raw geometry only.
#[derive(Debug)]
pub struct TagClipPath {
    pub items: Vec<Item>,
    pub attrs: Attrs,
}

#[derive(Debug)]
pub enum Item {
    Path(TagPath),
    Rect(TagRect),
    Polygon(TagPolygon),
    Polyline(TagPolyline),
    Line(TagLine),
    Ellipse(TagEllipse),
    Circle(TagCircle),
    G(TagG),
    Svg(TagSvg),
    Use(TagUse),
    Text(TagText),
    LinearGradient(TagLinearGradient),
    RadialGradient(TagRadialGradient),
    ClipPath(TagClipPath),
}

pub open spec fn points_wf(points: Seq<Vec2>) -> bool {
    forall|i: int| 0 <= i < points.len() ==> (#[trigger] points[i]).wf()
}

pub open spec fn stops_wf(stops: Seq<GradientStop>) -> bool {
    forall|i: int| 0 <= i < stops.len() ==> (#[trigger] stops[i]).wf()
}

/// Well-formedness of a whole subtree: every scalar carries a positive
/// denominator.
pub open spec fn item_wf(item: Item) -> bool
    decreases item,
{
    match item {
        Item::Path(tag) => tag.attrs.wf() && outline_wf(tag.outline@),
        Item::Rect(tag) => tag.attrs.wf() && tag.origin.wf() && tag.size.wf(),
        Item::Polygon(tag) => tag.attrs.wf() && points_wf(tag.points@),
        Item::Polyline(tag) => tag.attrs.wf() && points_wf(tag.points@),
        Item::Line(tag) => tag.attrs.wf() && tag.from.wf() && tag.to.wf(),
        Item::Ellipse(tag) => tag.attrs.wf() && tag.center.wf() && tag.radius.wf(),
        Item::Circle(tag) => tag.attrs.wf() && tag.center.wf() && tag.radius.wf(),
        Item::G(tag) => tag.attrs.wf() && forall|i: int|
            0 <= i < tag.items@.len() ==> item_wf(#[trigger] tag.items@[i]),
        Item::Svg(tag) => {
            &&& tag.attrs.wf()
            &&& (tag.view_box matches Some(vb) ==> vb.wf())
            &&& (tag.width matches Some(w) ==> w.wf())
            &&& (tag.height matches Some(h) ==> h.wf())
            &&& forall|i: int| 0 <= i < tag.items@.len() ==> item_wf(#[trigger] tag.items@[i])
        },
        Item::Use(tag) => tag.attrs.wf(),
        Item::Text(tag) => tag.attrs.wf(),
        Item::LinearGradient(tag) => tag.from.wf() && tag.to.wf() && stops_wf(tag.stops@)
            && tag.transform.wf(),
        Item::RadialGradient(tag) => tag.center.wf() && tag.radius.wf() && stops_wf(
            tag.stops@) && tag.transform.wf(),
        Item::ClipPath(tag) => tag.attrs.wf() && forall|i: int|
            0 <= i < tag.items@.len() ==> item_wf(#[trigger] tag.items@[i]),
    }
}

/// A parsed document: the root element and the id registry.
pub struct Svg {
    pub root: Box<Item>,
    pub named: Vec<(String, Item)>,
}

impl Svg {
    pub open spec fn wf(self) -> bool {
        &&& item_wf(*self.root)
        &&& forall|i: int| 0 <= i < self.named@.len() ==> item_wf(
            (#[trigger] self.named@[i]).1)
    }

    pub fn new(root: Item, named: Vec<(String, Item)>) -> (r: Svg)
        ensures
            r.root == root,
            r.named == named,
    {
        Svg { root: Box::new(root), named }
    }
}

/// First registry entry whose id matches, if any.
pub open spec fn spec_lookup(named: Seq<(String, Item)>, id: Seq<char>) -> Option<Item>
    decreases named.len(),
{
    if named.len() == 0 {
        None
    } else if named[0].0@ == id {
        Some(named[0].1)
    } else {
        spec_lookup(named.drop_first(), id)
    }
}

/// Whatever the registry yields is as well-formed as its entries.
pub proof fn lemma_lookup_wf(named: Seq<(String, Item)>, id: Seq<char>)
    requires
        forall|i: int| 0 <= i < named.len() ==> item_wf((#[trigger] named[i]).1),
    ensures
        spec_lookup(named, id) matches Some(it) ==> item_wf(it),
    decreases named.len(),
{
    if named.len() == 0 {
    } else if named[0].0@ == id {
    } else {
        assert forall|i: int| 0 <= i < named.drop_first().len() implies item_wf(
            (#[trigger] named.drop_first()[i]).1) by {
            assert(named.drop_first()[i] == named[i + 1]);
        }
        lemma_lookup_wf(named.drop_first(), id);
    }
}

/// The per-compile immutable context: the document and the DPI setting.
pub struct DrawContext<'a> {
    pub svg: &'a Svg,
    pub dpi: Scalar,
}

impl<'a> DrawContext<'a> {
    pub open spec fn wf(self) -> bool {
        self.svg.wf() && self.dpi.wf()
    }

    /// DPI defaults to 75 user units per inch.
    pub fn new(svg: &'a Svg) -> (r: DrawContext<'a>)
        ensures
            r.svg == svg,
            r.dpi == (Scalar { num: 75, den: 1 }),
    {
        DrawContext { svg, dpi: Scalar::new(75, 1) }
    }

    /// Resolves an id against the named-item registry; a missing id is
    /// "absent", never an error.
    pub fn resolve(&self, id: &String) -> (r: Option<&Item>)
        ensures
            match r {
                Some(item) => spec_lookup(self.svg.named@, id@) == Some(*item),
                None => spec_lookup(self.svg.named@, id@) is None,
            },
    {
        let n = self.svg.named.len();
        proof {
            assert(self.svg.named@.skip(0) =~= self.svg.named@);
        }
        let mut i: usize = 0;
        while i < n
            invariant
                n == self.svg.named@.len(),
                i <= n,
                spec_lookup(self.svg.named@, id@) == spec_lookup(
                    self.svg.named@.skip(i as int), id@),
            decreases n - i,
        {
            proof {
                assert(self.svg.named@.skip(i as int)[0] == self.svg.named@[i as int]);
                assert(self.svg.named@.skip(i as int).drop_first() =~= self.svg.named@.skip(
                    i as int + 1));
            }
            if self.svg.named[i].0.eq(id) {
                return Some(&self.svg.named[i].1);
            }
            i = i + 1;
        }
        proof {
            assert(self.svg.named@.skip(n as int).len() == 0);
        }
        None
    }

    /// Resolves a `#id` hyper-reference; anything not starting with `#` is
    /// "absent".
    pub fn resolve_href(&self, href: &String) -> (r: Option<&Item>)
        ensures
            match r {
                Some(item) => spec_href_target(self.svg.named@, href@) == Some(*item),
                None => spec_href_target(self.svg.named@, href@) is None,
            },
    {
        let s = href.as_str();
        if s.unicode_len() > 0 && s.get_char(0) == '#' {
            let id = s.substring_char(1, s.unicode_len());
            let owned = String::from_str(id);
            self.resolve(&owned)
        } else {
            None
        }
    }
}

/// Target of a `#id` reference: the registry entry of the fragment after
/// `#`, or nothing when the string is no local reference.
pub open spec fn spec_href_target(named: Seq<(String, Item)>, href: Seq<char>) -> Option<
    Item,
> {
    if href.len() > 0 && href[0] == '#' {
        spec_lookup(named, href.subrange(1, href.len() as int))
    } else {
        None
    }
}

} // verus!
