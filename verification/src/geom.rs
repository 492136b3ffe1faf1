//! Planar points and the squared-distance click threshold.
//!
//! Screen points are kept within a documented machine bound (coordinates
//! up to 131072 at a resolution of an eighth of a unit), which is enough
//! to prove that the squared-distance computation never overflows.

use vstd::prelude::*;

use crate::frac::{Frac, Rat};

verus! {

/// The ghost mirror of a planar point: two unbounded rationals.
pub ghost struct RatPoint {
    pub x: Rat,
    pub y: Rat,
}

/// A planar point with exact rational coordinates.
#[derive(Clone, Copy, Debug, PartialEq, Eq, Structural)]
pub struct Point2 {
    pub x: Frac,
    pub y: Frac,
}

impl Point2 {
    pub open spec fn wf(self) -> bool {
        self.x.wf() && self.y.wf()
    }

    pub open spec fn r(self) -> RatPoint {
        RatPoint { x: self.x.r(), y: self.y.r() }
    }

    pub fn new(x: Frac, y: Frac) -> (p: Point2)
        ensures
            p.x == x,
            p.y == y,
    {
        Point2 { x, y }
    }

    pub open spec fn spec_minus(a: RatPoint, b: RatPoint) -> RatPoint {
        RatPoint { x: a.x.minus(b.x), y: a.y.minus(b.y) }
    }

    pub open spec fn spec_plus(a: RatPoint, b: RatPoint) -> RatPoint {
        RatPoint { x: a.x.plus(b.x), y: a.y.plus(b.y) }
    }

    pub fn minus(self, o: Point2) -> (r: Point2)
        requires
            self.wf(),
            o.wf(),
            self.x.r().minus(o.x.r()).in_range(),
            self.y.r().minus(o.y.r()).in_range(),
        ensures
            r.wf(),
            r.r() == Point2::spec_minus(self.r(), o.r()),
    {
        Point2 { x: self.x.minus(o.x), y: self.y.minus(o.y) }
    }

    pub fn plus(self, o: Point2) -> (r: Point2)
        requires
            self.wf(),
            o.wf(),
            self.x.r().plus(o.x.r()).in_range(),
            self.y.r().plus(o.y.r()).in_range(),
        ensures
            r.wf(),
            r.r() == Point2::spec_plus(self.r(), o.r()),
    {
        Point2 { x: self.x.plus(o.x), y: self.y.plus(o.y) }
    }
}

/// Machine bound on a screen coordinate: magnitude at most 131072,
/// denominator at most 8 (an eighth of a pixel).
pub open spec fn screen_coord_wf(f: Frac) -> bool {
    &&& f.wf()
    &&& -0x20000 <= f.num <= 0x20000
    &&& f.den <= 8
}

pub open spec fn screen_pt_wf(p: Point2) -> bool {
    screen_coord_wf(p.x) && screen_coord_wf(p.y)
}

/// The click/drag discrimination threshold: a squared screen distance of
/// one tenth.
pub open spec fn spec_click_threshold() -> Rat {
    Rat { num: 1, den: 10 }
}

pub fn click_threshold() -> (r: Frac)
    ensures
        r.wf(),
        r.r() == spec_click_threshold(),
{
    Frac::new(1, 10)
}

/// Squared distance between two points.
pub open spec fn spec_dist_sq(a: RatPoint, b: RatPoint) -> Rat {
    let dx = b.x.minus(a.x);
    let dy = b.y.minus(a.y);
    dx.times(dx).plus(dy.times(dy))
}

/// The pointer moved at least the click threshold away from `a`.
pub open spec fn spec_moved_beyond(a: RatPoint, b: RatPoint) -> bool {
    spec_click_threshold().lte(spec_dist_sq(a, b))
}

proof fn lemma_diff_bounds(an: int, ad: int, bn: int, bd: int)
    by (nonlinear_arith)
    requires
        -0x20000 <= an <= 0x20000,
        1 <= ad <= 8,
        -0x20000 <= bn <= 0x20000,
        1 <= bd <= 8,
    ensures
        -0x200000 <= bn * ad - an * bd <= 0x200000,
        1 <= ad * bd <= 64,
        1 <= bd * ad <= 64,
{
}

proof fn lemma_sq_bounds(n: int, d: int)
    by (nonlinear_arith)
    requires
        -0x200000 <= n <= 0x200000,
        1 <= d <= 64,
    ensures
        0 <= n * n <= 0x400_0000_0000,
        1 <= d * d <= 4096,
{
}

proof fn lemma_sum_sq_bounds(n1: int, d1: int, n2: int, d2: int)
    by (nonlinear_arith)
    requires
        0 <= n1 <= 0x400_0000_0000,
        1 <= d1 <= 4096,
        0 <= n2 <= 0x400_0000_0000,
        1 <= d2 <= 4096,
    ensures
        0 <= n1 * d2 + n2 * d1 <= 0x80_0000_0000_0000,
        1 <= d1 * d2 <= 0x100_0000,
{
}

/// Squared screen distance, exact; the screen bounds rule overflow out.
pub fn dist_sq(a: Point2, b: Point2) -> (r: Frac)
    requires
        screen_pt_wf(a),
        screen_pt_wf(b),
    ensures
        r.wf(),
        r.r() == spec_dist_sq(a.r(), b.r()),
{
    proof {
        lemma_diff_bounds(a.x.num as int, a.x.den as int, b.x.num as int, b.x.den as int);
        lemma_diff_bounds(a.y.num as int, a.y.den as int, b.y.num as int, b.y.den as int);
    }
    let dx = b.x.minus(a.x);
    let dy = b.y.minus(a.y);
    proof {
        lemma_sq_bounds(dx.num as int, dx.den as int);
        lemma_sq_bounds(dy.num as int, dy.den as int);
    }
    let dx2 = dx.times(dx);
    let dy2 = dy.times(dy);
    proof {
        lemma_sum_sq_bounds(dx2.num as int, dx2.den as int, dy2.num as int, dy2.den as int);
    }
    dx2.plus(dy2)
}

/// Whether the pointer moved at least the click threshold away from `a`;
/// exactly `spec_moved_beyond`.
pub fn moved_beyond_threshold(a: Point2, b: Point2) -> (r: bool)
    requires
        screen_pt_wf(a),
        screen_pt_wf(b),
    ensures
        r == spec_moved_beyond(a.r(), b.r()),
{
    let d2 = dist_sq(a, b);
    click_threshold().lte(d2)
}

} // verus!
