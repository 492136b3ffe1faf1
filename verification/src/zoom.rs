//! The camera zoom controller.
//!
//! Each tick the wheel events are summed, weighting "line" units by one
//! fifth and "pixel" units by one tenth. A zero sum is a no-op. An
//! otherwise positive factor (the host derives it from the sum through
//! an exponential, which stays outside this crate) multiplies each
//! camera's planar scale; the camera is then translated so that the
//! world point that was under the cursor before the zoom is under the
//! cursor again after it. The pass is skipped while the pointer is over
//! a UI overlay.

use vstd::prelude::*;

use crate::clicks::cameras_wf;
use crate::frac::{Frac, Rat};
use crate::geom::{Point2, RatPoint};
use crate::project::{
    lemma_world_axis_reanchor, lemma_world_axis_wf, screen_to_world, screen_to_world_fits,
    spec_camera_world, spec_world_axis, Camera2d, CameraTransform, RatCamera,
};

verus! {

/// A wheel event's unit: discrete lines or continuous pixels.
#[derive(Clone, Copy, Debug, PartialEq, Eq, Structural)]
pub enum MouseScrollUnit {
    Line,
    Pixel,
}

/// One wheel event: its unit and its signed vertical magnitude.
#[derive(Clone, Copy, Debug, PartialEq, Eq, Structural)]
pub struct MouseWheel {
    pub unit: MouseScrollUnit,
    pub y: Frac,
}

impl MouseWheel {
    pub open spec fn wf(self) -> bool {
        self.y.wf()
    }
}

pub open spec fn wheel_events_wf(events: Seq<MouseWheel>) -> bool {
    forall|i: int| 0 <= i < events.len() ==> (#[trigger] events[i]).wf()
}

pub open spec fn rat_fifth() -> Rat {
    Rat { num: 1, den: 5 }
}

pub open spec fn rat_tenth() -> Rat {
    Rat { num: 1, den: 10 }
}

/// The weight of one wheel event towards the zoom amount.
pub open spec fn spec_wheel_weight(e: MouseWheel) -> Rat {
    match e.unit {
        MouseScrollUnit::Line => e.y.r().times(rat_fifth()),
        MouseScrollUnit::Pixel => e.y.r().times(rat_tenth()),
    }
}

/// The running sum of the weighted wheel events, left to right.
pub open spec fn spec_zoom_fold(events: Seq<MouseWheel>, acc: Rat) -> Rat
    decreases events.len(),
{
    if events.len() == 0 {
        acc
    } else {
        spec_zoom_fold(events.skip(1), acc.plus(spec_wheel_weight(events[0])))
    }
}

/// This tick's accumulated zoom amount.
pub open spec fn spec_zoom_amount(events: Seq<MouseWheel>) -> Rat {
    spec_zoom_fold(events, Rat { num: 0, den: 1 })
}

/// Machine limit: every partial sum fits the executable representation.
pub open spec fn spec_zoom_fold_fits(events: Seq<MouseWheel>, acc: Rat) -> bool
    decreases events.len(),
{
    if events.len() == 0 {
        true
    } else {
        &&& spec_wheel_weight(events[0]).in_range()
        &&& acc.plus(spec_wheel_weight(events[0])).in_range()
        &&& spec_zoom_fold_fits(events.skip(1), acc.plus(spec_wheel_weight(events[0])))
    }
}

/// Sum this tick's wheel events, weighted by unit; exactly
/// `spec_zoom_amount`.
pub fn yoleck_zoom_amount(wheel_events: &Vec<MouseWheel>) -> (r: Frac)
    requires
        wheel_events_wf(wheel_events@),
        spec_zoom_fold_fits(wheel_events@, Rat { num: 0, den: 1 }),
    ensures
        r.wf(),
        r.r() == spec_zoom_amount(wheel_events@),
{
    let fifth = Frac::new(1, 5);
    let tenth = Frac::new(1, 10);
    let mut acc = Frac::zero();
    let ghost all = wheel_events@;
    let ghost goal = spec_zoom_amount(all);
    proof {
        assert(all.skip(0) =~= all);
    }
    let mut i: usize = 0;
    while i < wheel_events.len()
        invariant
            i <= wheel_events.len(),
            wheel_events@ == all,
            wheel_events_wf(all),
            fifth == (Frac { num: 1int as i64, den: 5int as i64 }),
            tenth == (Frac { num: 1int as i64, den: 10int as i64 }),
            acc.wf(),
            spec_zoom_fold(all.skip(i as int), acc.r()) == goal,
            spec_zoom_fold_fits(all.skip(i as int), acc.r()),
        decreases wheel_events.len() - i,
    {
        let e = wheel_events[i];
        assert(all.skip(i as int)[0] == all[i as int]);
        let weighted = match e.unit {
            MouseScrollUnit::Line => e.y.times(fifth),
            MouseScrollUnit::Pixel => e.y.times(tenth),
        };
        acc = acc.plus(weighted);
        proof {
            assert(all.skip(i as int).skip(1) =~= all.skip(i as int + 1));
        }
        i += 1;
    }
    acc
}

/// The scale a zoom takes a camera's planar axes to.
pub open spec fn spec_zoomed_scale(c: Camera2d, k: Rat) -> (Rat, Rat) {
    (c.transform.scale.x.r().times(k), c.transform.scale.y.r().times(k))
}

/// The world point under the cursor once the scale is multiplied by `k`
/// but before the compensating translation.
pub open spec fn spec_rescaled_world_axis_x(c: Camera2d, k: Rat) -> Rat {
    let screen = c.window->Some_0.cursor->Some_0;
    spec_world_axis(
        screen.x.r(),
        c.window->Some_0.size.r().width,
        c.projection.scale.x.r(),
        c.projection.offset.x.r(),
        c.transform.scale.x.r().times(k),
        c.transform.translation.x.r(),
    )
}

pub open spec fn spec_rescaled_world_axis_y(c: Camera2d, k: Rat) -> Rat {
    let screen = c.window->Some_0.cursor->Some_0;
    spec_world_axis(
        screen.y.r(),
        c.window->Some_0.size.r().height,
        c.projection.scale.y.r(),
        c.projection.offset.y.r(),
        c.transform.scale.y.r().times(k),
        c.transform.translation.y.r(),
    )
}

/// The translation a zoom moves the camera to: the old translation plus
/// `world - rescaled world`, which brings the world point that was under
/// the cursor back under it.
pub open spec fn spec_zoomed_translation(c: Camera2d, k: Rat) -> (Rat, Rat) {
    let screen = c.window->Some_0.cursor->Some_0;
    let w = spec_camera_world(c, screen);
    (
        c.transform.translation.x.r().plus(w.x.minus(spec_rescaled_world_axis_x(c, k))),
        c.transform.translation.y.r().plus(w.y.minus(spec_rescaled_world_axis_y(c, k))),
    )
}

/// How a zoomed camera relates to what it was.
pub open spec fn spec_zoomed_cam(c: Camera2d, c2: Camera2d, k: Rat) -> bool {
    &&& c2.camera == c.camera
    &&& c2.projection == c.projection
    &&& c2.window == c.window
    &&& c2.transform.wf()
    &&& c2.transform.scale.x.r() == spec_zoomed_scale(c, k).0
    &&& c2.transform.scale.y.r() == spec_zoomed_scale(c, k).1
    &&& c2.transform.translation.x.r() == spec_zoomed_translation(c, k).0
    &&& c2.transform.translation.y.r() == spec_zoomed_translation(c, k).1
}

/// A zoom applies to a camera when it has a window showing the cursor.
pub open spec fn zoom_applies(c: Camera2d) -> bool {
    c.window is Some && c.window->Some_0.cursor is Some
}

/// Machine limit: one camera's zoom adjustment fits.
pub open spec fn zoom_camera_fits(c: Camera2d, k: Rat) -> bool {
    zoom_applies(c) ==> {
        let screen = c.window->Some_0.cursor->Some_0;
        let w = spec_camera_world(c, screen);
        &&& c.transform.scale.x.r().times(k).in_range()
        &&& c.transform.scale.y.r().times(k).in_range()
        &&& screen_to_world_fits(screen.r(), c.window->Some_0.size.r(), c.projection.r(), c.transform.r())
        &&& w.x.minus(spec_rescaled_world_axis_x(c, k)).in_range()
        &&& w.y.minus(spec_rescaled_world_axis_y(c, k)).in_range()
        &&& spec_zoomed_translation(c, k).0.in_range()
        &&& spec_zoomed_translation(c, k).1.in_range()
    }
}

pub open spec fn zoom_fits(cams: Seq<Camera2d>, k: Rat) -> bool {
    forall|i: int| 0 <= i < cams.len() ==> zoom_camera_fits(#[trigger] cams[i], k)
}

/// The per-tick zoom pass.
///
/// `scale_by` is the zoom factor the host derived from the accumulated
/// wheel amount (an exponential of its negation, so always positive);
/// the exponential itself stays outside this crate. The pass is skipped
/// while the pointer is over the UI, and a tick whose weighted wheel sum
/// is exactly zero changes nothing at all.
pub fn camera_2d_zoom(
    pointer_over_ui: bool,
    cameras: &mut Vec<Camera2d>,
    wheel_events: &Vec<MouseWheel>,
    scale_by: Frac,
)
    requires
        cameras_wf(old(cameras)@),
        wheel_events_wf(wheel_events@),
        spec_zoom_fold_fits(wheel_events@, Rat { num: 0, den: 1 }),
        scale_by.wf(),
        !pointer_over_ui && !spec_zoom_amount(wheel_events@).is_zero() ==> {
            let world_fits_scaled = forall|i: int|
                0 <= i < old(cameras)@.len() && zoom_applies(#[trigger] old(cameras)@[i]) ==> {
                    let c = old(cameras)@[i];
                    screen_to_world_fits(
                        c.window->Some_0.cursor->Some_0.r(),
                        c.window->Some_0.size.r(),
                        c.projection.r(),
                        RatCamera {
                            scale: RatPoint {
                                x: c.transform.scale.x.r().times(scale_by.r()),
                                y: c.transform.scale.y.r().times(scale_by.r()),
                            },
                            translation: c.transform.translation.r(),
                        },
                    )
                };
            zoom_fits(old(cameras)@, scale_by.r()) && world_fits_scaled
        },
    ensures
        cameras_wf(final(cameras)@),
        final(cameras)@.len() == old(cameras)@.len(),
        pointer_over_ui ==> final(cameras)@ == old(cameras)@,
        !pointer_over_ui && spec_zoom_amount(wheel_events@).is_zero() ==> final(cameras)@ == old(
            cameras,
        )@,
        !pointer_over_ui && !spec_zoom_amount(wheel_events@).is_zero() ==> forall|i: int|
            0 <= i < old(cameras)@.len() ==> {
                let c = #[trigger] old(cameras)@[i];
                if zoom_applies(c) {
                    spec_zoomed_cam(c, final(cameras)@[i], scale_by.r())
                } else {
                    final(cameras)@[i] == c
                }
            },
{
    if pointer_over_ui {
        return ;
    }
    let zoom_amount = yoleck_zoom_amount(wheel_events);
    if zoom_amount.is_zero() {
        return ;
    }
    let mut i: usize = 0;
    while i < cameras.len()
        invariant
            i <= cameras.len(),
            cameras@.len() == old(cameras)@.len(),
            cameras_wf(cameras@),
            scale_by.wf(),
            zoom_fits(old(cameras)@, scale_by.r()),
            forall|j: int|
                0 <= j < old(cameras)@.len() && zoom_applies(#[trigger] old(cameras)@[j]) ==> {
                    let c = old(cameras)@[j];
                    screen_to_world_fits(
                        c.window->Some_0.cursor->Some_0.r(),
                        c.window->Some_0.size.r(),
                        c.projection.r(),
                        RatCamera {
                            scale: RatPoint {
                                x: c.transform.scale.x.r().times(scale_by.r()),
                                y: c.transform.scale.y.r().times(scale_by.r()),
                            },
                            translation: c.transform.translation.r(),
                        },
                    )
                },
            forall|j: int| i <= j < cameras@.len() ==> cameras@[j] == old(cameras)@[j],
            forall|j: int|
                0 <= j < i ==> {
                    let c = #[trigger] old(cameras)@[j];
                    if zoom_applies(c) {
                        spec_zoomed_cam(c, cameras@[j], scale_by.r())
                    } else {
                        cameras@[j] == c
                    }
                },
        decreases cameras.len() - i,
    {
        let cam = cameras[i];
        match cam.window {
            Some(win) => match win.cursor {
                Some(screen_pos) => {
                    let world_pos = screen_to_world(
                        screen_pos,
                        win.size,
                        &cam.transform,
                        &cam.projection,
                    );
                    let new_scale = Point2 {
                        x: cam.transform.scale.x.times(scale_by),
                        y: cam.transform.scale.y.times(scale_by),
                    };
                    let rescaled = CameraTransform {
                        scale: new_scale,
                        translation: cam.transform.translation,
                    };
                    let new_world_pos = screen_to_world(
                        screen_pos,
                        win.size,
                        &rescaled,
                        &cam.projection,
                    );
                    let shift = world_pos.minus(new_world_pos);
                    let mut c2 = cam;
                    c2.transform.scale = new_scale;
                    c2.transform.translation = cam.transform.translation.plus(shift);
                    cameras[i] = c2;
                },
                None => {},
            },
            None => {},
        }
        i += 1;
    }
}

/// The zoom invariant: for any factor, the world point under the cursor
/// before the zoom is the world point under the cursor after it, on
/// both axes.
pub proof fn lemma_zoom_keeps_cursor_world(c: Camera2d, c2: Camera2d, k: Rat)
    requires
        c.wf(),
        k.wf(),
        zoom_applies(c),
        spec_zoomed_cam(c, c2, k),
    ensures
        spec_camera_world(c2, c.window->Some_0.cursor->Some_0).x.eqv(
            spec_camera_world(c, c.window->Some_0.cursor->Some_0).x,
        ),
        spec_camera_world(c2, c.window->Some_0.cursor->Some_0).y.eqv(
            spec_camera_world(c, c.window->Some_0.cursor->Some_0).y,
        ),
{
    let screen = c.window->Some_0.cursor->Some_0;
    let size = c.window->Some_0.size;
    let w = spec_camera_world(c, screen);
    crate::frac::lemma_plus_wf(c.transform.scale.x.r(), k);
    crate::frac::lemma_plus_wf(c.transform.scale.y.r(), k);
    lemma_world_axis_wf(
        screen.x.r(),
        size.width.r(),
        c.projection.scale.x.r(),
        c.projection.offset.x.r(),
        c.transform.scale.x.r(),
        c.transform.translation.x.r(),
    );
    lemma_world_axis_wf(
        screen.y.r(),
        size.height.r(),
        c.projection.scale.y.r(),
        c.projection.offset.y.r(),
        c.transform.scale.y.r(),
        c.transform.translation.y.r(),
    );
    lemma_world_axis_wf(
        screen.x.r(),
        size.width.r(),
        c.projection.scale.x.r(),
        c.projection.offset.x.r(),
        c.transform.scale.x.r().times(k),
        c.transform.translation.x.r(),
    );
    lemma_world_axis_wf(
        screen.y.r(),
        size.height.r(),
        c.projection.scale.y.r(),
        c.projection.offset.y.r(),
        c.transform.scale.y.r().times(k),
        c.transform.translation.y.r(),
    );
    lemma_world_axis_reanchor(
        screen.x.r(),
        size.width.r(),
        c.projection.scale.x.r(),
        c.projection.offset.x.r(),
        c.transform.scale.x.r().times(k),
        c.transform.translation.x.r(),
        w.x,
    );
    lemma_world_axis_reanchor(
        screen.y.r(),
        size.height.r(),
        c.projection.scale.y.r(),
        c.projection.offset.y.r(),
        c.transform.scale.y.r().times(k),
        c.transform.translation.y.r(),
        w.y,
    );
}

} // verus!
