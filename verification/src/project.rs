//! The coordinate projector: a screen-space point to a world-space point,
//! given the camera transform, the (orthographic) projection, and the
//! viewport size.
//!
//! Per axis, with screen coordinate `s` and viewport extent `e`:
//! `ndc = (s / e) * 2 - 1`, then the projection is undone
//! (`view = (ndc - offset) / pscale`) and the camera transform applied
//! (`world = cscale * view + ctrans`). The vertical axis is deliberately
//! not inverted: the host's screen convention is taken as it stands.

use vstd::prelude::*;

use crate::frac::{lemma_plus_assoc, lemma_plus_minus_cancel, Frac, Rat};
use crate::geom::{Point2, RatPoint};

verus! {

/// A camera transform: a non-uniform planar scale and a translation,
/// mapping view space to world space.
#[derive(Clone, Copy, Debug)]
pub struct CameraTransform {
    pub scale: Point2,
    pub translation: Point2,
}

pub ghost struct RatCamera {
    pub scale: RatPoint,
    pub translation: RatPoint,
}

impl CameraTransform {
    pub open spec fn wf(self) -> bool {
        self.scale.wf() && self.translation.wf()
    }

    pub open spec fn r(self) -> RatCamera {
        RatCamera { scale: self.scale.r(), translation: self.translation.r() }
    }
}

/// An orthographic projection, mapping view space to normalized device
/// coordinates: `ndc = scale * view + offset`, with nonzero scale.
#[derive(Clone, Copy, Debug)]
pub struct CameraProjection {
    pub scale: Point2,
    pub offset: Point2,
}

pub ghost struct RatProjection {
    pub scale: RatPoint,
    pub offset: RatPoint,
}

impl CameraProjection {
    pub open spec fn wf(self) -> bool {
        &&& self.scale.wf()
        &&& self.offset.wf()
        &&& self.scale.x.num != 0
        &&& self.scale.y.num != 0
    }

    pub open spec fn r(self) -> RatProjection {
        RatProjection { scale: self.scale.r(), offset: self.offset.r() }
    }
}

/// A viewport's pixel extent; both sides positive.
#[derive(Clone, Copy, Debug)]
pub struct ViewportSize {
    pub width: Frac,
    pub height: Frac,
}

pub ghost struct RatViewport {
    pub width: Rat,
    pub height: Rat,
}

impl ViewportSize {
    pub open spec fn wf(self) -> bool {
        &&& self.width.wf()
        &&& self.height.wf()
        &&& self.width.num > 0
        &&& self.height.num > 0
    }

    pub open spec fn r(self) -> RatViewport {
        RatViewport { width: self.width.r(), height: self.height.r() }
    }
}

/// The render window a camera draws to, as sampled this tick: its pixel
/// extent and the cursor position inside it, if the cursor is there.
#[derive(Clone, Copy, Debug)]
pub struct CameraWindow {
    pub size: ViewportSize,
    pub cursor: Option<Point2>,
}

impl CameraWindow {
    pub open spec fn wf(self) -> bool {
        &&& self.size.wf()
        &&& match self.cursor {
            Option::Some(c) => crate::geom::screen_pt_wf(c),
            Option::None => true,
        }
    }
}

/// One orthographic-mode camera as sampled for a tick: its identity, its
/// transform and projection, and its render window (absent when the
/// camera has no window target, in which case the camera is skipped).
#[derive(Clone, Copy, Debug)]
pub struct Camera2d {
    pub camera: u64,
    pub transform: CameraTransform,
    pub projection: CameraProjection,
    pub window: Option<CameraWindow>,
}

impl Camera2d {
    pub open spec fn wf(self) -> bool {
        &&& self.transform.wf()
        &&& self.projection.wf()
        &&& match self.window {
            Option::Some(w) => w.wf(),
            Option::None => true,
        }
    }
}

pub open spec fn rat_one() -> Rat {
    Rat { num: 1, den: 1 }
}

pub open spec fn rat_two() -> Rat {
    Rat { num: 2, den: 1 }
}

/// `(s / e) * 2 - 1`: a screen coordinate normalized to the `[-1, 1]`
/// square.
pub open spec fn spec_ndc(s: Rat, e: Rat) -> Rat {
    s.div_by(e).times(rat_two()).minus(rat_one())
}

/// Undo the projection on one axis.
pub open spec fn spec_unproject(ndc: Rat, pscale: Rat, poffset: Rat) -> Rat {
    ndc.minus(poffset).div_by(pscale)
}

/// One axis of the screen-to-world conversion.
pub open spec fn spec_world_axis(s: Rat, e: Rat, pscale: Rat, poffset: Rat, cscale: Rat, ctrans: Rat) -> Rat {
    cscale.times(spec_unproject(spec_ndc(s, e), pscale, poffset)).plus(ctrans)
}

pub open spec fn spec_screen_to_world(s: RatPoint, vp: RatViewport, proj: RatProjection, cam: RatCamera) -> RatPoint {
    RatPoint {
        x: spec_world_axis(s.x, vp.width, proj.scale.x, proj.offset.x, cam.scale.x, cam.translation.x),
        y: spec_world_axis(s.y, vp.height, proj.scale.y, proj.offset.y, cam.scale.y, cam.translation.y),
    }
}

/// Machine limit: every intermediate of one axis of the conversion fits
/// the executable representation.
pub open spec fn world_axis_fits(s: Rat, e: Rat, pscale: Rat, poffset: Rat, cscale: Rat, ctrans: Rat) -> bool {
    let q0 = s.div_by(e);
    let q1 = q0.times(rat_two());
    let ndc = q1.minus(rat_one());
    let q2 = ndc.minus(poffset);
    let view = q2.div_by(pscale);
    let q3 = cscale.times(view);
    let w = q3.plus(ctrans);
    &&& q0.in_range()
    &&& q1.in_range()
    &&& ndc.in_range()
    &&& q2.in_range()
    &&& view.in_range()
    &&& q3.in_range()
    &&& w.in_range()
}

pub open spec fn screen_to_world_fits(s: RatPoint, vp: RatViewport, proj: RatProjection, cam: RatCamera) -> bool {
    &&& world_axis_fits(s.x, vp.width, proj.scale.x, proj.offset.x, cam.scale.x, cam.translation.x)
    &&& world_axis_fits(s.y, vp.height, proj.scale.y, proj.offset.y, cam.scale.y, cam.translation.y)
}

/// Convert a screen point to the world point under it. Pure and exact:
/// the result is the mathematical value of the projection pipeline.
pub fn screen_to_world(screen: Point2, viewport: ViewportSize, cam: &CameraTransform, proj: &CameraProjection) -> (w: Point2)
    requires
        screen.wf(),
        viewport.wf(),
        cam.wf(),
        proj.wf(),
        screen_to_world_fits(screen.r(), viewport.r(), proj.r(), cam.r()),
    ensures
        w.wf(),
        w.r() == spec_screen_to_world(screen.r(), viewport.r(), proj.r(), cam.r()),
{
    let two = Frac::from_int(2);
    let one = Frac::from_int(1);
    let ndc_x = screen.x.div_by(viewport.width).times(two).minus(one);
    let ndc_y = screen.y.div_by(viewport.height).times(two).minus(one);
    let view_x = ndc_x.minus(proj.offset.x).div_by(proj.scale.x);
    let view_y = ndc_y.minus(proj.offset.y).div_by(proj.scale.y);
    let wx = cam.scale.x.times(view_x).plus(cam.translation.x);
    let wy = cam.scale.y.times(view_y).plus(cam.translation.y);
    Point2 { x: wx, y: wy }
}

/// One camera's world point under the cursor, per the projector.
pub open spec fn spec_camera_world(c: Camera2d, screen: Point2) -> RatPoint
    recommends
        c.window is Some,
{
    spec_screen_to_world(screen.r(), c.window->Some_0.size.r(), c.projection.r(), c.transform.r())
}

/// The world point is a well formed rational whenever the camera is.
pub proof fn lemma_world_axis_wf(s: Rat, e: Rat, pscale: Rat, poffset: Rat, cscale: Rat, ctrans: Rat)
    requires
        s.wf(),
        e.wf(),
        e.num != 0,
        pscale.wf(),
        pscale.num != 0,
        poffset.wf(),
        cscale.wf(),
        ctrans.wf(),
    ensures
        spec_world_axis(s, e, pscale, poffset, cscale, ctrans).wf(),
{
    crate::frac::lemma_div_wf(s, e);
    crate::frac::lemma_plus_wf(s.div_by(e), rat_two());
    crate::frac::lemma_plus_wf(s.div_by(e).times(rat_two()), rat_one());
    let ndc = spec_ndc(s, e);
    crate::frac::lemma_plus_wf(ndc, poffset);
    crate::frac::lemma_div_wf(ndc.minus(poffset), pscale);
    let view = spec_unproject(ndc, pscale, poffset);
    crate::frac::lemma_plus_wf(cscale, view);
    crate::frac::lemma_plus_wf(cscale.times(view), ctrans);
}

/// The conversion is linear in the camera translation: translating the
/// camera by `d` translates the world point under a fixed screen point
/// by exactly `d`.
pub proof fn lemma_world_axis_translation(s: Rat, e: Rat, pscale: Rat, poffset: Rat, cscale: Rat, ctrans: Rat, d: Rat)
    ensures
        spec_world_axis(s, e, pscale, poffset, cscale, ctrans.plus(d)) == spec_world_axis(
            s,
            e,
            pscale,
            poffset,
            cscale,
            ctrans,
        ).plus(d),
{
    let v = cscale.times(spec_unproject(spec_ndc(s, e), pscale, poffset));
    lemma_plus_assoc(v, ctrans, d);
}

/// Re-anchoring: moving the camera by `anchor - w`, where `w` is the
/// world point now under the screen point, puts `anchor` under that
/// screen point.
pub proof fn lemma_world_axis_reanchor(s: Rat, e: Rat, pscale: Rat, poffset: Rat, cscale: Rat, ctrans: Rat, anchor: Rat)
    requires
        anchor.wf(),
        spec_world_axis(s, e, pscale, poffset, cscale, ctrans).wf(),
    ensures
        spec_world_axis(
            s,
            e,
            pscale,
            poffset,
            cscale,
            ctrans.plus(anchor.minus(spec_world_axis(s, e, pscale, poffset, cscale, ctrans))),
        ).eqv(anchor),
{
    let w = spec_world_axis(s, e, pscale, poffset, cscale, ctrans);
    let d = anchor.minus(w);
    lemma_world_axis_translation(s, e, pscale, poffset, cscale, ctrans, d);
    lemma_plus_minus_cancel(w, anchor);
}

} // verus!
