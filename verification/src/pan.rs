//! The camera pan controller.
//!
//! A fresh secondary-button press anchors, per camera, the world point
//! under the cursor. While the button stays held, each tick recomputes
//! the world point under the cursor with the camera's current transform
//! and moves the camera by `anchor - world`, so the anchored world point
//! stays under the cursor. Releasing the button clears the anchors.

use vstd::prelude::*;

use std::collections::HashMap;

use crate::clicks::{cameras_wf, ButtonState};
use crate::geom::{Point2, RatPoint};
use crate::project::{
    lemma_world_axis_reanchor, lemma_world_axis_wf, screen_to_world, screen_to_world_fits,
    spec_camera_world, Camera2d,
};

verus! {

broadcast use vstd::std_specs::hash::group_hash_axioms;

/// The ghost mirror of the anchor map.
pub open spec fn anchors_model(m: Map<u64, Point2>) -> Map<u64, RatPoint> {
    m.map_values(|p: Point2| p.r())
}

pub open spec fn anchors_wf(m: Map<u64, Point2>) -> bool {
    forall|k: u64| m.dom().contains(k) ==> (#[trigger] m[k]).wf()
}

/// A held pan applies to a camera when it has a window showing the
/// cursor and an anchor was captured for it.
pub open spec fn pan_applies(c: Camera2d, anchors: Map<u64, RatPoint>) -> bool {
    &&& c.window is Some
    &&& c.window->Some_0.cursor is Some
    &&& anchors.dom().contains(c.camera)
}

/// The translation a pan moves the camera to: the old translation plus
/// `anchor - world`, where `world` is the point now under the cursor.
pub open spec fn spec_panned_translation(c: Camera2d, anchor: RatPoint) -> RatPoint {
    let screen = c.window->Some_0.cursor->Some_0;
    let w = spec_camera_world(c, screen);
    RatPoint {
        x: c.transform.translation.x.r().plus(anchor.x.minus(w.x)),
        y: c.transform.translation.y.r().plus(anchor.y.minus(w.y)),
    }
}

/// How a panned camera relates to what it was: only the translation
/// moved, by exactly `anchor - world`.
pub open spec fn spec_panned_cam(c: Camera2d, c2: Camera2d, anchor: RatPoint) -> bool {
    &&& c2.camera == c.camera
    &&& c2.projection == c.projection
    &&& c2.window == c.window
    &&& c2.transform.scale == c.transform.scale
    &&& c2.transform.translation.wf()
    &&& c2.transform.translation.r() == spec_panned_translation(c, anchor)
}

/// The anchors a fresh press captures: for every camera with a window
/// showing the cursor, in order, the world point under the cursor.
pub open spec fn spec_pan_anchors(cams: Seq<Camera2d>, m: Map<u64, RatPoint>) -> Map<u64, RatPoint>
    decreases cams.len(),
{
    if cams.len() == 0 {
        m
    } else {
        let c = cams[0];
        let rest = cams.skip(1);
        match c.window {
            Option::None => spec_pan_anchors(rest, m),
            Option::Some(win) => match win.cursor {
                Option::None => spec_pan_anchors(rest, m),
                Option::Some(screen) => spec_pan_anchors(
                    rest,
                    m.insert(c.camera, spec_camera_world(c, screen)),
                ),
            },
        }
    }
}

/// Machine limit: anchoring projects every cursor.
pub open spec fn pan_press_fits(cams: Seq<Camera2d>) -> bool {
    forall|i: int|
        0 <= i < cams.len() ==> {
            let c = #[trigger] cams[i];
            c.window is Some && c.window->Some_0.cursor is Some ==> screen_to_world_fits(
                c.window->Some_0.cursor->Some_0.r(),
                c.window->Some_0.size.r(),
                c.projection.r(),
                c.transform.r(),
            )
        }
}

/// Machine limit: one held-pan adjustment fits.
pub open spec fn pan_move_fits(c: Camera2d, anchor: RatPoint) -> bool {
    let screen = c.window->Some_0.cursor->Some_0;
    let w = spec_camera_world(c, screen);
    &&& screen_to_world_fits(screen.r(), c.window->Some_0.size.r(), c.projection.r(), c.transform.r())
    &&& anchor.x.minus(w.x).in_range()
    &&& anchor.y.minus(w.y).in_range()
    &&& c.transform.translation.x.r().plus(anchor.x.minus(w.x)).in_range()
    &&& c.transform.translation.y.r().plus(anchor.y.minus(w.y)).in_range()
}

/// The per-tick pan pass.
///
/// A fresh press over the UI overlay skips the pass; a fresh press in
/// the scene records, per camera, the world point under the cursor; a
/// held button moves each anchored camera by `anchor - world`; anything
/// else clears the anchors.
pub fn camera_2d_pan(
    buttons: ButtonState,
    pointer_over_ui: bool,
    cameras: &mut Vec<Camera2d>,
    last_cursor_world_pos_by_camera: &mut HashMap<u64, Point2>,
)
    requires
        cameras_wf(old(cameras)@),
        anchors_wf(old(last_cursor_world_pos_by_camera)@),
        buttons.just_pressed && !pointer_over_ui ==> pan_press_fits(old(cameras)@),
        !buttons.just_pressed && buttons.pressed ==> forall|i: int|
            0 <= i < old(cameras)@.len() && pan_applies(
                #[trigger] old(cameras)@[i],
                anchors_model(old(last_cursor_world_pos_by_camera)@),
            ) ==> pan_move_fits(
                old(cameras)@[i],
                anchors_model(old(last_cursor_world_pos_by_camera)@)[old(cameras)@[i].camera],
            ),
    ensures
        cameras_wf(final(cameras)@),
        anchors_wf(final(last_cursor_world_pos_by_camera)@),
        final(cameras)@.len() == old(cameras)@.len(),
        buttons.just_pressed && pointer_over_ui ==> final(cameras)@ == old(cameras)@
            && *final(last_cursor_world_pos_by_camera) == *old(last_cursor_world_pos_by_camera),
        !buttons.just_pressed && !buttons.pressed ==> final(cameras)@ == old(cameras)@
            && final(last_cursor_world_pos_by_camera)@ == Map::<u64, Point2>::empty(),
        buttons.just_pressed && !pointer_over_ui ==> final(cameras)@ == old(cameras)@
            && anchors_model(final(last_cursor_world_pos_by_camera)@) == spec_pan_anchors(
            old(cameras)@,
            anchors_model(old(last_cursor_world_pos_by_camera)@),
        ),
        !buttons.just_pressed && buttons.pressed ==> *final(last_cursor_world_pos_by_camera)
            == *old(last_cursor_world_pos_by_camera) && forall|i: int|
            0 <= i < old(cameras)@.len() ==> {
                let c = #[trigger] old(cameras)@[i];
                let m0 = anchors_model(old(last_cursor_world_pos_by_camera)@);
                if pan_applies(c, m0) {
                    spec_panned_cam(c, final(cameras)@[i], m0[c.camera])
                } else {
                    final(cameras)@[i] == c
                }
            },
{
    if buttons.just_pressed {
        if pointer_over_ui {
            return ;
        }
        let ghost m0 = anchors_model(last_cursor_world_pos_by_camera@);
        let ghost goal = spec_pan_anchors(cameras@, m0);
        proof {
            assert(cameras@.skip(0) =~= cameras@);
        }
        let mut i: usize = 0;
        while i < cameras.len()
            invariant
                i <= cameras.len(),
                cameras@ == old(cameras)@,
                cameras_wf(cameras@),
                pan_press_fits(cameras@),
                anchors_wf(last_cursor_world_pos_by_camera@),
                spec_pan_anchors(
                    cameras@.skip(i as int),
                    anchors_model(last_cursor_world_pos_by_camera@),
                ) == goal,
            decreases cameras.len() - i,
        {
            let ghost pre = anchors_model(last_cursor_world_pos_by_camera@);
            let cam = &cameras[i];
            assert(cameras@.skip(i as int)[0] == cameras@[i as int]);
            match &cam.window {
                Some(win) => match win.cursor {
                    Some(screen_pos) => {
                        let world_pos = screen_to_world(
                            screen_pos,
                            win.size,
                            &cam.transform,
                            &cam.projection,
                        );
                        last_cursor_world_pos_by_camera.insert(cam.camera, world_pos);
                        proof {
                            assert(anchors_model(last_cursor_world_pos_by_camera@) =~= pre.insert(
                                cam.camera,
                                world_pos.r(),
                            ));
                        }
                    },
                    None => {},
                },
                None => {},
            }
            proof {
                assert(cameras@.skip(i as int).skip(1) =~= cameras@.skip(i as int + 1));
            }
            i += 1;
        }
        proof {
            assert(cameras@.skip(cameras@.len() as int).len() == 0);
        }
    } else if buttons.pressed {
        let ghost m0 = anchors_model(last_cursor_world_pos_by_camera@);
        let mut i: usize = 0;
        while i < cameras.len()
            invariant
                i <= cameras.len(),
                cameras@.len() == old(cameras)@.len(),
                cameras_wf(cameras@),
                *last_cursor_world_pos_by_camera == *old(last_cursor_world_pos_by_camera),
                m0 == anchors_model(last_cursor_world_pos_by_camera@),
                anchors_wf(last_cursor_world_pos_by_camera@),
                !buttons.just_pressed && buttons.pressed,
                forall|j: int| i <= j < cameras@.len() ==> cameras@[j] == old(cameras)@[j],
                forall|j: int|
                    0 <= j < i ==> {
                        let c = #[trigger] old(cameras)@[j];
                        if pan_applies(c, m0) {
                            spec_panned_cam(c, cameras@[j], m0[c.camera])
                        } else {
                            cameras@[j] == c
                        }
                    },
                forall|i: int|
                    0 <= i < old(cameras)@.len() && pan_applies(
                        #[trigger] old(cameras)@[i],
                        m0,
                    ) ==> pan_move_fits(old(cameras)@[i], m0[old(cameras)@[i].camera]),
            decreases cameras.len() - i,
        {
            let cam = cameras[i];
            match cam.window {
                Some(win) => match win.cursor {
                    Some(screen_pos) => {
                        match last_cursor_world_pos_by_camera.get(&cam.camera) {
                            Some(prev_pos) => {
                                let anchor = *prev_pos;
                                let world_pos = screen_to_world(
                                    screen_pos,
                                    win.size,
                                    &cam.transform,
                                    &cam.projection,
                                );
                                let movement = anchor.minus(world_pos);
                                let mut c2 = cam;
                                c2.transform.translation = c2.transform.translation.plus(movement);
                                cameras[i] = c2;
                            },
                            None => {},
                        }
                    },
                    None => {},
                },
                None => {},
            }
            i += 1;
        }
    } else {
        last_cursor_world_pos_by_camera.clear();
    }
}

/// The pan invariant: while the secondary button is held, the anchor
/// world point captured at press time is the world point under the
/// cursor again after the tick's adjustment, on both axes.
pub proof fn lemma_pan_keeps_anchor(c: Camera2d, c2: Camera2d, anchor: RatPoint)
    requires
        c.wf(),
        c.window is Some,
        c.window->Some_0.cursor is Some,
        anchor.x.wf(),
        anchor.y.wf(),
        spec_panned_cam(c, c2, anchor),
    ensures
        spec_camera_world(c2, c.window->Some_0.cursor->Some_0).x.eqv(anchor.x),
        spec_camera_world(c2, c.window->Some_0.cursor->Some_0).y.eqv(anchor.y),
{
    let screen = c.window->Some_0.cursor->Some_0;
    let size = c.window->Some_0.size;
    lemma_world_axis_wf(
        screen.x.r(),
        size.width.r(),
        c.projection.scale.x.r(),
        c.projection.offset.x.r(),
        c.transform.scale.x.r(),
        c.transform.translation.x.r(),
    );
    lemma_world_axis_wf(
        screen.y.r(),
        size.height.r(),
        c.projection.scale.y.r(),
        c.projection.offset.y.r(),
        c.transform.scale.y.r(),
        c.transform.translation.y.r(),
    );
    lemma_world_axis_reanchor(
        screen.x.r(),
        size.width.r(),
        c.projection.scale.x.r(),
        c.projection.offset.x.r(),
        c.transform.scale.x.r(),
        c.transform.translation.x.r(),
        anchor.x,
    );
    lemma_world_axis_reanchor(
        screen.y.r(),
        size.height.r(),
        c.projection.scale.y.r(),
        c.projection.offset.y.r(),
        c.transform.scale.y.r(),
        c.transform.translation.y.r(),
        anchor.y,
    );
}

} // verus!
