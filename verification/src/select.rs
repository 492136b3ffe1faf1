//! The selection hit tester: does a world point lie inside an entity's
//! local selectable rectangle?
//!
//! The entity's world transform is a planar affine map; the world point
//! is mapped into the entity's local space through the inverse of that
//! map and tested against the rectangle with inclusive bounds. A
//! transform with zero determinant cannot be inverted: the entity is
//! then treated as not hit (it fails closed).

use vstd::prelude::*;

use crate::frac::{Frac, Rat};
use crate::geom::{Point2, RatPoint};

verus! {

/// A planar affine transform mapping entity-local space to world space:
/// `world = M * local + t` with `M = [[m11, m12], [m21, m22]]`.
#[derive(Clone, Copy, Debug)]
pub struct Affine2 {
    pub m11: Frac,
    pub m12: Frac,
    pub m21: Frac,
    pub m22: Frac,
    pub tx: Frac,
    pub ty: Frac,
}

pub ghost struct RatAffine {
    pub m11: Rat,
    pub m12: Rat,
    pub m21: Rat,
    pub m22: Rat,
    pub tx: Rat,
    pub ty: Rat,
}

impl Affine2 {
    pub open spec fn wf(self) -> bool {
        &&& self.m11.wf()
        &&& self.m12.wf()
        &&& self.m21.wf()
        &&& self.m22.wf()
        &&& self.tx.wf()
        &&& self.ty.wf()
    }

    pub open spec fn r(self) -> RatAffine {
        RatAffine {
            m11: self.m11.r(),
            m12: self.m12.r(),
            m21: self.m21.r(),
            m22: self.m22.r(),
            tx: self.tx.r(),
            ty: self.ty.r(),
        }
    }

    pub open spec fn spec_translation(self) -> RatPoint {
        RatPoint { x: self.tx.r(), y: self.ty.r() }
    }

    /// The translation part, as a point: where the entity's local origin
    /// sits in world space.
    pub fn translation(&self) -> (t: Point2)
        ensures
            t.x == self.tx,
            t.y == self.ty,
            t.r() == self.spec_translation(),
    {
        Point2 { x: self.tx, y: self.ty }
    }
}

pub open spec fn spec_det(t: RatAffine) -> Rat {
    t.m11.times(t.m22).minus(t.m12.times(t.m21))
}

/// The world point mapped into the entity's local space (meaningful only
/// when the determinant is nonzero).
pub open spec fn spec_local_x(t: RatAffine, w: RatPoint) -> Rat {
    let qx = w.x.minus(t.tx);
    let qy = w.y.minus(t.ty);
    t.m22.times(qx).minus(t.m12.times(qy)).div_by(spec_det(t))
}

pub open spec fn spec_local_y(t: RatAffine, w: RatPoint) -> Rat {
    let qx = w.x.minus(t.tx);
    let qy = w.y.minus(t.ty);
    t.m11.times(qy).minus(t.m21.times(qx)).div_by(spec_det(t))
}

pub open spec fn rat_half() -> Rat {
    Rat { num: 1, den: 2 }
}

/// An entity's selectable shape: an axis-aligned rectangle in the
/// entity's local coordinate space, attached once and then immutable.
#[derive(Clone, Copy, Debug)]
pub struct YoleckSelectable {
    pub left: Frac,
    pub right: Frac,
    pub top: Frac,
    pub bottom: Frac,
}

/// Whether the world point `w` hits the rectangle under the transform
/// `t`: the point is mapped into local space and tested with inclusive
/// bounds on all four edges; a non-invertible transform never hits.
pub open spec fn spec_hit(sel: YoleckSelectable, t: RatAffine, w: RatPoint) -> bool {
    if spec_det(t).is_zero() {
        false
    } else {
        let lx = spec_local_x(t, w);
        let ly = spec_local_y(t, w);
        &&& sel.left.r().lte(lx)
        &&& lx.lte(sel.right.r())
        &&& sel.top.r().lte(ly)
        &&& ly.lte(sel.bottom.r())
    }
}

/// Machine limit: every intermediate of the hit test fits the
/// executable representation.
pub open spec fn hit_fits(t: RatAffine, w: RatPoint) -> bool {
    let qx = w.x.minus(t.tx);
    let qy = w.y.minus(t.ty);
    let d = spec_det(t);
    &&& qx.in_range()
    &&& qy.in_range()
    &&& t.m11.times(t.m22).in_range()
    &&& t.m12.times(t.m21).in_range()
    &&& d.in_range()
    &&& t.m22.times(qx).in_range()
    &&& t.m12.times(qy).in_range()
    &&& t.m11.times(qy).in_range()
    &&& t.m21.times(qx).in_range()
    &&& t.m22.times(qx).minus(t.m12.times(qy)).in_range()
    &&& t.m11.times(qy).minus(t.m21.times(qx)).in_range()
    &&& (!d.is_zero() ==> t.m22.times(qx).minus(t.m12.times(qy)).div_by(d).in_range())
    &&& (!d.is_zero() ==> t.m11.times(qy).minus(t.m21.times(qx)).div_by(d).in_range())
}

impl YoleckSelectable {
    pub open spec fn wf(self) -> bool {
        &&& self.left.wf()
        &&& self.right.wf()
        &&& self.top.wf()
        &&& self.bottom.wf()
    }

    /// A rectangle of the given width and height, centered on the
    /// entity's local origin.
    pub fn rect(width: Frac, height: Frac) -> (s: YoleckSelectable)
        requires
            width.wf(),
            height.wf(),
            width.num > i64::MIN,
            height.num > i64::MIN,
            width.r().times(rat_half()).in_range(),
            height.r().times(rat_half()).in_range(),
        ensures
            s.wf(),
            s.right.r() == width.r().times(rat_half()),
            s.left.r() == width.r().times(rat_half()).neg(),
            s.bottom.r() == height.r().times(rat_half()),
            s.top.r() == height.r().times(rat_half()).neg(),
    {
        let half = Frac::new(1, 2);
        let hw = width.times(half);
        let hh = height.times(half);
        YoleckSelectable { left: hw.neg(), right: hw, top: hh.neg(), bottom: hh }
    }

    /// The hit test: exactly `spec_hit`.
    pub fn is_world_pos_in(&self, transform: &Affine2, cursor_in_world_pos: Point2) -> (r: bool)
        requires
            self.wf(),
            transform.wf(),
            cursor_in_world_pos.wf(),
            hit_fits(transform.r(), cursor_in_world_pos.r()),
        ensures
            r == spec_hit(*self, transform.r(), cursor_in_world_pos.r()),
    {
        let qx = cursor_in_world_pos.x.minus(transform.tx);
        let qy = cursor_in_world_pos.y.minus(transform.ty);
        let det = transform.m11.times(transform.m22).minus(transform.m12.times(transform.m21));
        if det.is_zero() {
            return false;
        }
        let lx = transform.m22.times(qx).minus(transform.m12.times(qy)).div_by(det);
        let ly = transform.m11.times(qy).minus(transform.m21.times(qx)).div_by(det);
        self.left.lte(lx) && lx.lte(self.right) && self.top.lte(ly) && ly.lte(self.bottom)
    }
}

} // verus!
