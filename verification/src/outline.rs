//! Resolved geometric outlines: sequences of contours ready for filling or
//! stroking, and their transformation into device space.

use vstd::prelude::*;
use crate::geom::{Vec2, Transform, tf_apply, tf_compose};

verus! {

/// One contour of an outline: a polygonal chain of points, or an ellipse
/// given as the image of the unit circle under an affine transform.
#[derive(Clone, Debug)]
pub enum Contour {
    Poly { points: Vec<Vec2>, closed: bool },
    Ellipse { transform: Transform },
}

#[verifier::ext_equal]
pub enum ContourV {
    Poly { points: Seq<Vec2>, closed: bool },
    Ellipse { transform: Transform },
}

impl View for Contour {
    type V = ContourV;

    open spec fn view(&self) -> ContourV {
        match self {
            Contour::Poly { points, closed } => ContourV::Poly {
                points: points@,
                closed: *closed,
            },
            Contour::Ellipse { transform } => ContourV::Ellipse { transform: *transform },
        }
    }
}

impl ContourV {
    pub open spec fn wf(self) -> bool {
        match self {
            ContourV::Poly { points, closed } => forall|i: int|
                0 <= i < points.len() ==> (#[trigger] points[i]).wf(),
            ContourV::Ellipse { transform } => transform.wf(),
        }
    }
}

/// A contour mapped by an affine transform: points are mapped one by one,
/// an ellipse composes the transform.
pub open spec fn spec_tf_contour(t: Transform, c: ContourV) -> ContourV {
    match c {
        ContourV::Poly { points, closed } => ContourV::Poly {
            points: points.map_values(|p: Vec2| tf_apply(t, p)),
            closed,
        },
        ContourV::Ellipse { transform } => ContourV::Ellipse {
            transform: tf_compose(t, transform),
        },
    }
}

#[derive(Clone, Debug)]
pub struct Outline {
    pub contours: Vec<Contour>,
}

impl View for Outline {
    type V = Seq<ContourV>;

    open spec fn view(&self) -> Seq<ContourV> {
        self.contours@.map_values(|c: Contour| c@)
    }
}

pub open spec fn outline_wf(o: Seq<ContourV>) -> bool {
    forall|i: int| 0 <= i < o.len() ==> (#[trigger] o[i]).wf()
}

/// An outline mapped by an affine transform, contour by contour.
pub open spec fn spec_tf_outline(t: Transform, o: Seq<ContourV>) -> Seq<ContourV> {
    o.map_values(|c: ContourV| spec_tf_contour(t, c))
}

impl Outline {
    pub fn new() -> (r: Outline)
        ensures
            r@ =~= Seq::<ContourV>::empty(),
    {
        Outline { contours: Vec::new() }
    }

    pub fn push_contour(&mut self, c: Contour)
        ensures
            final(self)@ =~= old(self)@.push(c@),
    {
        self.contours.push(c);
    }

    /// Appends every contour of `other`, preserving order.
    pub fn append_outline(&mut self, other: &Outline)
        ensures
            final(self)@ =~= old(self)@ + other@,
    {
        let mut i: usize = 0;
        while i < other.contours.len()
            invariant
                i <= other.contours@.len(),
                self@ =~= old(self)@ + other@.subrange(0, i as int),
            decreases other.contours@.len() - i,
        {
            let c = clone_contour(&other.contours[i]);
            let ghost pre_view = self@;
            let ghost pre_contours = self.contours@;
            self.contours.push(c);
            i = i + 1;
            proof {
                assert(self.contours@ == pre_contours.push(c));
                assert(self@ =~= pre_view.push(c@));
                assert(other@[i as int - 1] == c@);
                assert(other@.subrange(0, i as int) =~= other@.subrange(
                    0, i as int - 1).push(c@));
                assert(self@ =~= old(self)@ + other@.subrange(0, i as int));
            }
        }
        proof {
            assert(other@.subrange(0, other.contours@.len() as int) =~= other@);
        }
    }

    /// The outline mapped by an affine transform.
    pub fn transformed(&self, t: &Transform) -> (r: Outline)
        requires
            t.wf(),
            outline_wf(self@),
        ensures
            r@ =~= spec_tf_outline(*t, self@),
            outline_wf(r@),
    {
        let mut out: Vec<Contour> = Vec::new();
        let mut i: usize = 0;
        while i < self.contours.len()
            invariant
                i <= self.contours@.len(),
                t.wf(),
                outline_wf(self@),
                outline_wf(out@.map_values(|c: Contour| c@)),
                out@.map_values(|c: Contour| c@) =~= spec_tf_outline(
                    *t, self@.subrange(0, i as int)),
            decreases self.contours@.len() - i,
        {
            let c = tf_contour(t, &self.contours[i]);
            assert(c@ == spec_tf_contour(*t, self@[i as int]));
            let ghost pre_view = out@.map_values(|c: Contour| c@);
            out.push(c);
            i = i + 1;
            proof {
                assert(out@.map_values(|c: Contour| c@) =~= pre_view.push(c@));
                assert(spec_tf_outline(*t, self@.subrange(0, i as int)) =~= spec_tf_outline(
                    *t, self@.subrange(0, i as int - 1)).push(
                    spec_tf_contour(*t, self@[i as int - 1])));
            }
        }
        proof {
            assert(self@.subrange(0, self.contours@.len() as int) =~= self@);
        }
        Outline { contours: out }
    }
}

/// A structurally view-equal copy of a contour.
pub fn clone_contour(c: &Contour) -> (r: Contour)
    ensures
        r@ == c@,
{
    match c {
        Contour::Poly { points, closed } => {
            let mut pts: Vec<Vec2> = Vec::new();
            let mut i: usize = 0;
            while i < points.len()
                invariant
                    i <= points@.len(),
                    pts@ =~= points@.subrange(0, i as int),
                decreases points@.len() - i,
            {
                pts.push(points[i]);
                i = i + 1;
            }
            proof {
                assert(points@.subrange(0, points@.len() as int) =~= points@);
            }
            Contour::Poly { points: pts, closed: *closed }
        },
        Contour::Ellipse { transform } => Contour::Ellipse { transform: *transform },
    }
}

/// One contour mapped by an affine transform.
pub fn tf_contour(t: &Transform, c: &Contour) -> (r: Contour)
    requires
        t.wf(),
        c@.wf(),
    ensures
        r@ == spec_tf_contour(*t, c@),
        r@.wf(),
{
    match c {
        Contour::Poly { points, closed } => {
            let mut pts: Vec<Vec2> = Vec::new();
            let mut i: usize = 0;
            while i < points.len()
                invariant
                    i <= points@.len(),
                    t.wf(),
                    forall|j: int| 0 <= j < points@.len() ==> (#[trigger] points@[j]).wf(),
                    forall|j: int| 0 <= j < pts@.len() ==> (#[trigger] pts@[j]).wf(),
                    pts@ =~= points@.subrange(0, i as int).map_values(
                        |p: Vec2| tf_apply(*t, p)),
                decreases points@.len() - i,
            {
                pts.push(t.apply(&points[i]));
                i = i + 1;
                proof {
                    assert(points@.subrange(0, i as int).map_values(
                        |p: Vec2| tf_apply(*t, p)) =~= points@.subrange(
                        0, i as int - 1).map_values(|p: Vec2| tf_apply(*t, p)).push(
                        tf_apply(*t, points@[i as int - 1])));
                }
            }
            proof {
                assert(points@.subrange(0, points@.len() as int) =~= points@);
            }
            Contour::Poly { points: pts, closed: *closed }
        },
        Contour::Ellipse { transform } => Contour::Ellipse {
            transform: t.compose(transform),
        },
    }
}

} // verus!
