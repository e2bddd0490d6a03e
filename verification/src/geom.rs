//! Device-space geometry over exact rational scalars: points, rectangles
//! and 2D affine transforms.

use vstd::prelude::*;
use crate::scalar::{Scalar, rat_add, rat_sub, rat_mul, rat_min, rat_max};

verus! {

#[derive(Clone, Copy, Debug)]
pub struct Vec2 {
    pub x: Scalar,
    pub y: Scalar,
}

impl Vec2 {
    pub open spec fn wf(self) -> bool {
        self.x.wf() && self.y.wf()
    }

    pub fn new(x: Scalar, y: Scalar) -> (r: Vec2)
        ensures
            r == (Vec2 { x, y }),
    {
        Vec2 { x, y }
    }

    pub fn zero() -> (r: Vec2)
        ensures
            r == vec2_zero(),
            r.wf(),
    {
        Vec2 { x: Scalar::zero(), y: Scalar::zero() }
    }

    pub fn add(&self, other: &Vec2) -> (r: Vec2)
        requires
            self.wf(),
            other.wf(),
        ensures
            r == vec2_add(*self, *other),
            r.wf(),
    {
        Vec2 { x: self.x.add(&other.x), y: self.y.add(&other.y) }
    }
}

pub open spec fn vec2_zero() -> Vec2 {
    Vec2 { x: Scalar { num: 0, den: 1 }, y: Scalar { num: 0, den: 1 } }
}

pub open spec fn vec2_add(a: Vec2, b: Vec2) -> Vec2 {
    Vec2 { x: rat_add(a.x, b.x), y: rat_add(a.y, b.y) }
}

/// An axis-aligned rectangle: origin plus size.
#[derive(Clone, Copy, Debug)]
pub struct Rect {
    pub origin: Vec2,
    pub size: Vec2,
}

pub open spec fn rect_lower_right(r: Rect) -> Vec2 {
    vec2_add(r.origin, r.size)
}

/// The smallest rectangle holding both arguments.
pub open spec fn rect_union(a: Rect, b: Rect) -> Rect {
    let ox = rat_min(a.origin.x, b.origin.x);
    let oy = rat_min(a.origin.y, b.origin.y);
    let cx = rat_max(rect_lower_right(a).x, rect_lower_right(b).x);
    let cy = rat_max(rect_lower_right(a).y, rect_lower_right(b).y);
    Rect {
        origin: Vec2 { x: ox, y: oy },
        size: Vec2 { x: rat_sub(cx, ox), y: rat_sub(cy, oy) },
    }
}

/// The rectangle grown by `amount` on every side.
pub open spec fn rect_dilate(r: Rect, amount: Scalar) -> Rect {
    let two_amount = rat_add(amount, amount);
    Rect {
        origin: Vec2 { x: rat_sub(r.origin.x, amount), y: rat_sub(r.origin.y, amount) },
        size: Vec2 { x: rat_add(r.size.x, two_amount), y: rat_add(r.size.y, two_amount) },
    }
}

impl Rect {
    pub open spec fn wf(self) -> bool {
        self.origin.wf() && self.size.wf()
    }

    pub fn new(origin: Vec2, size: Vec2) -> (r: Rect)
        ensures
            r == (Rect { origin, size }),
    {
        Rect { origin, size }
    }

    pub fn width(&self) -> (r: Scalar)
        ensures
            r == self.size.x,
    {
        self.size.x
    }

    pub fn height(&self) -> (r: Scalar)
        ensures
            r == self.size.y,
    {
        self.size.y
    }

    pub fn lower_right(&self) -> (r: Vec2)
        requires
            self.wf(),
        ensures
            r == rect_lower_right(*self),
            r.wf(),
    {
        self.origin.add(&self.size)
    }

    pub fn union(&self, other: &Rect) -> (r: Rect)
        requires
            self.wf(),
            other.wf(),
        ensures
            r == rect_union(*self, *other),
            r.wf(),
    {
        let ox = self.origin.x.min(&other.origin.x);
        let oy = self.origin.y.min(&other.origin.y);
        let a_lr = self.lower_right();
        let b_lr = other.lower_right();
        let cx = a_lr.x.max(&b_lr.x);
        let cy = a_lr.y.max(&b_lr.y);
        Rect {
            origin: Vec2 { x: ox, y: oy },
            size: Vec2 { x: cx.sub(&ox), y: cy.sub(&oy) },
        }
    }

    pub fn dilate(&self, amount: Scalar) -> (r: Rect)
        requires
            self.wf(),
            amount.wf(),
        ensures
            r == rect_dilate(*self, amount),
            r.wf(),
    {
        let two_amount = amount.add(&amount);
        Rect {
            origin: Vec2 { x: self.origin.x.sub(&amount), y: self.origin.y.sub(&amount) },
            size: Vec2 { x: self.size.x.add(&two_amount), y: self.size.y.add(&two_amount) },
        }
    }
}

/// A 2D affine transform sending `(x, y)` to
/// `(a*x + c*y + e, b*x + d*y + f)`.
#[derive(Clone, Copy, Debug)]
pub struct Transform {
    pub a: Scalar,
    pub b: Scalar,
    pub c: Scalar,
    pub d: Scalar,
    pub e: Scalar,
    pub f: Scalar,
}

pub open spec fn tf_apply(t: Transform, v: Vec2) -> Vec2 {
    Vec2 {
        x: rat_add(rat_add(rat_mul(t.a, v.x), rat_mul(t.c, v.y)), t.e),
        y: rat_add(rat_add(rat_mul(t.b, v.x), rat_mul(t.d, v.y)), t.f),
    }
}

/// Composition: `tf_compose(p, q)` applies `q` first, then `p`.
pub open spec fn tf_compose(p: Transform, q: Transform) -> Transform {
    Transform {
        a: rat_add(rat_mul(p.a, q.a), rat_mul(p.c, q.b)),
        b: rat_add(rat_mul(p.b, q.a), rat_mul(p.d, q.b)),
        c: rat_add(rat_mul(p.a, q.c), rat_mul(p.c, q.d)),
        d: rat_add(rat_mul(p.b, q.c), rat_mul(p.d, q.d)),
        e: rat_add(rat_add(rat_mul(p.a, q.e), rat_mul(p.c, q.f)), p.e),
        f: rat_add(rat_add(rat_mul(p.b, q.e), rat_mul(p.d, q.f)), p.f),
    }
}

/// The bounding box of the four transformed corners of `r`.
pub open spec fn tf_rect(t: Transform, r: Rect) -> Rect {
    let p0 = tf_apply(t, r.origin);
    let p1 = tf_apply(t, Vec2 { x: rect_lower_right(r).x, y: r.origin.y });
    let p2 = tf_apply(t, Vec2 { x: r.origin.x, y: rect_lower_right(r).y });
    let p3 = tf_apply(t, rect_lower_right(r));
    let ox = rat_min(rat_min(p0.x, p1.x), rat_min(p2.x, p3.x));
    let oy = rat_min(rat_min(p0.y, p1.y), rat_min(p2.y, p3.y));
    let cx = rat_max(rat_max(p0.x, p1.x), rat_max(p2.x, p3.x));
    let cy = rat_max(rat_max(p0.y, p1.y), rat_max(p2.y, p3.y));
    Rect {
        origin: Vec2 { x: ox, y: oy },
        size: Vec2 { x: rat_sub(cx, ox), y: rat_sub(cy, oy) },
    }
}

pub open spec fn tf_identity() -> Transform {
    Transform {
        a: Scalar { num: 1, den: 1 },
        b: Scalar { num: 0, den: 1 },
        c: Scalar { num: 0, den: 1 },
        d: Scalar { num: 1, den: 1 },
        e: Scalar { num: 0, den: 1 },
        f: Scalar { num: 0, den: 1 },
    }
}

impl Transform {
    pub open spec fn wf(self) -> bool {
        self.a.wf() && self.b.wf() && self.c.wf() && self.d.wf() && self.e.wf()
            && self.f.wf()
    }

    pub fn identity() -> (r: Transform)
        ensures
            r == tf_identity(),
            r.wf(),
    {
        Transform {
            a: Scalar::one(),
            b: Scalar::zero(),
            c: Scalar::zero(),
            d: Scalar::one(),
            e: Scalar::zero(),
            f: Scalar::zero(),
        }
    }

    pub fn from_scale(s: Vec2) -> (r: Transform)
        requires
            s.wf(),
        ensures
            r == tf_from_scale(s),
            r.wf(),
    {
        Transform {
            a: s.x,
            b: Scalar::zero(),
            c: Scalar::zero(),
            d: s.y,
            e: Scalar::zero(),
            f: Scalar::zero(),
        }
    }

    pub fn from_translation(v: Vec2) -> (r: Transform)
        requires
            v.wf(),
        ensures
            r == tf_from_translation(v),
            r.wf(),
    {
        Transform {
            a: Scalar::one(),
            b: Scalar::zero(),
            c: Scalar::zero(),
            d: Scalar::one(),
            e: v.x,
            f: v.y,
        }
    }

    pub fn apply(&self, v: &Vec2) -> (r: Vec2)
        requires
            self.wf(),
            v.wf(),
        ensures
            r == tf_apply(*self, *v),
            r.wf(),
    {
        Vec2 {
            x: self.a.mul(&v.x).add(&self.c.mul(&v.y)).add(&self.e),
            y: self.b.mul(&v.x).add(&self.d.mul(&v.y)).add(&self.f),
        }
    }

    /// Composition with `other` applied first.
    pub fn compose(&self, other: &Transform) -> (r: Transform)
        requires
            self.wf(),
            other.wf(),
        ensures
            r == tf_compose(*self, *other),
            r.wf(),
    {
        Transform {
            a: self.a.mul(&other.a).add(&self.c.mul(&other.b)),
            b: self.b.mul(&other.a).add(&self.d.mul(&other.b)),
            c: self.a.mul(&other.c).add(&self.c.mul(&other.d)),
            d: self.b.mul(&other.c).add(&self.d.mul(&other.d)),
            e: self.a.mul(&other.e).add(&self.c.mul(&other.f)).add(&self.e),
            f: self.b.mul(&other.e).add(&self.d.mul(&other.f)).add(&self.f),
        }
    }

    pub fn apply_rect(&self, r: &Rect) -> (res: Rect)
        requires
            self.wf(),
            r.wf(),
        ensures
            res == tf_rect(*self, *r),
            res.wf(),
    {
        let lr = r.lower_right();
        let p0 = self.apply(&r.origin);
        let p1 = self.apply(&Vec2 { x: lr.x, y: r.origin.y });
        let p2 = self.apply(&Vec2 { x: r.origin.x, y: lr.y });
        let p3 = self.apply(&lr);
        let ox = p0.x.min(&p1.x).min(&p2.x.min(&p3.x));
        let oy = p0.y.min(&p1.y).min(&p2.y.min(&p3.y));
        let cx = p0.x.max(&p1.x).max(&p2.x.max(&p3.x));
        let cy = p0.y.max(&p1.y).max(&p2.y.max(&p3.y));
        Rect {
            origin: Vec2 { x: ox, y: oy },
            size: Vec2 { x: cx.sub(&ox), y: cy.sub(&oy) },
        }
    }
}

pub open spec fn tf_from_scale(s: Vec2) -> Transform {
    Transform {
        a: s.x,
        b: Scalar { num: 0, den: 1 },
        c: Scalar { num: 0, den: 1 },
        d: s.y,
        e: Scalar { num: 0, den: 1 },
        f: Scalar { num: 0, den: 1 },
    }
}

pub open spec fn tf_from_translation(v: Vec2) -> Transform {
    Transform {
        a: Scalar { num: 1, den: 1 },
        b: Scalar { num: 0, den: 1 },
        c: Scalar { num: 0, den: 1 },
        d: Scalar { num: 1, den: 1 },
        e: v.x,
        f: v.y,
    }
}

} // verus!
