//! Projection, pan and zoom behaviour on concrete cameras.

use std::collections::HashMap;

use yoleck::clicks::ButtonState;
use yoleck::frac::Frac;
use yoleck::geom::Point2;
use yoleck::pan::camera_2d_pan;
use yoleck::project::{
    screen_to_world, Camera2d, CameraProjection, CameraTransform, CameraWindow, ViewportSize,
};
use yoleck::zoom::{camera_2d_zoom, yoleck_zoom_amount, MouseScrollUnit, MouseWheel};

fn fr(num: i64, den: i64) -> Frac {
    Frac::new(num, den)
}

fn pt(x: Frac, y: Frac) -> Point2 {
    Point2 { x, y }
}

/// The rational value of `f` equals `num / den`.
fn frac_is(f: Frac, num: i64, den: i64) -> bool {
    (f.num as i128) * (den as i128) == (num as i128) * (f.den as i128)
}

/// An 800x600 window whose projection maps view space to the unit
/// square: world x spans -400..400 and world y spans -300..300 when the
/// camera transform is the identity.
fn test_camera(camera: u64, cursor: Option<Point2>) -> Camera2d {
    Camera2d {
        camera,
        transform: CameraTransform {
            scale: pt(fr(1, 1), fr(1, 1)),
            translation: pt(fr(0, 1), fr(0, 1)),
        },
        projection: CameraProjection {
            scale: pt(fr(1, 400), fr(1, 300)),
            offset: pt(fr(0, 1), fr(0, 1)),
        },
        window: Some(CameraWindow {
            size: ViewportSize { width: fr(800, 1), height: fr(600, 1) },
            cursor,
        }),
    }
}

fn held() -> ButtonState {
    ButtonState { just_pressed: false, pressed: true, just_released: false }
}

fn fresh_press() -> ButtonState {
    ButtonState { just_pressed: true, pressed: true, just_released: false }
}

fn untouched() -> ButtonState {
    ButtonState { just_pressed: false, pressed: false, just_released: false }
}

#[test]
fn frac_arithmetic_is_exact() {
    let a = fr(1, 2);
    let b = fr(1, 3);
    let sum = a.plus(b);
    assert_eq!(sum.num, 5);
    assert_eq!(sum.den, 6);
    let diff = a.minus(b);
    assert!(frac_is(diff, 1, 6));
    let prod = a.times(b);
    assert!(frac_is(prod, 1, 6));
    let quot = a.div_by(b);
    assert!(frac_is(quot, 3, 2));
    let quot_neg = a.div_by(fr(-1, 3));
    assert!(frac_is(quot_neg, -3, 2));
    assert!(quot_neg.den > 0);
    assert!(b.lte(a));
    assert!(!a.lte(b));
    assert!(b.ltv(a));
    assert!(fr(0, 5).is_zero());
}

#[test]
fn screen_center_projects_to_world_origin() {
    let cam = test_camera(1, None);
    let w = screen_to_world(
        pt(fr(400, 1), fr(300, 1)),
        ViewportSize { width: fr(800, 1), height: fr(600, 1) },
        &cam.transform,
        &cam.projection,
    );
    assert!(frac_is(w.x, 0, 1));
    assert!(frac_is(w.y, 0, 1));
}

#[test]
fn screen_offset_projects_linearly() {
    let cam = test_camera(1, None);
    let w = screen_to_world(
        pt(fr(600, 1), fr(450, 1)),
        ViewportSize { width: fr(800, 1), height: fr(600, 1) },
        &cam.transform,
        &cam.projection,
    );
    assert!(frac_is(w.x, 200, 1));
    assert!(frac_is(w.y, 150, 1));
}

#[test]
fn camera_transform_shifts_and_scales_world_point() {
    let mut cam = test_camera(1, None);
    cam.transform.scale = pt(fr(2, 1), fr(2, 1));
    cam.transform.translation = pt(fr(10, 1), fr(-5, 1));
    let w = screen_to_world(
        pt(fr(600, 1), fr(300, 1)),
        ViewportSize { width: fr(800, 1), height: fr(600, 1) },
        &cam.transform,
        &cam.projection,
    );
    assert!(frac_is(w.x, 410, 1));
    assert!(frac_is(w.y, -5, 1));
}

#[test]
fn zoom_amount_weights_lines_and_pixels() {
    let events = vec![
        MouseWheel { unit: MouseScrollUnit::Line, y: fr(1, 1) },
        MouseWheel { unit: MouseScrollUnit::Pixel, y: fr(3, 1) },
    ];
    let amount = yoleck_zoom_amount(&events);
    assert!(frac_is(amount, 1, 2));
}

#[test]
fn zoom_amount_of_no_events_is_zero() {
    let events: Vec<MouseWheel> = vec![];
    assert!(yoleck_zoom_amount(&events).is_zero());
}

#[test]
fn zero_wheel_sum_leaves_scale_unchanged() {
    let mut cameras = vec![test_camera(1, Some(pt(fr(600, 1), fr(300, 1))))];
    let events = vec![
        MouseWheel { unit: MouseScrollUnit::Line, y: fr(1, 1) },
        MouseWheel { unit: MouseScrollUnit::Pixel, y: fr(-2, 1) },
    ];
    camera_2d_zoom(false, &mut cameras, &events, fr(1, 1));
    assert_eq!(cameras[0].transform.scale.x, fr(1, 1));
    assert_eq!(cameras[0].transform.scale.y, fr(1, 1));
    assert_eq!(cameras[0].transform.translation.x, fr(0, 1));
}

#[test]
fn zoom_over_ui_is_skipped() {
    let mut cameras = vec![test_camera(1, Some(pt(fr(600, 1), fr(300, 1))))];
    let events = vec![MouseWheel { unit: MouseScrollUnit::Line, y: fr(1, 1) }];
    camera_2d_zoom(true, &mut cameras, &events, fr(1, 2));
    assert_eq!(cameras[0].transform.scale.x, fr(1, 1));
    assert_eq!(cameras[0].transform.translation.x, fr(0, 1));
}

#[test]
fn zoom_keeps_world_point_under_cursor() {
    let cursor = pt(fr(600, 1), fr(450, 1));
    let mut cameras = vec![test_camera(1, Some(cursor))];
    let before = screen_to_world(
        cursor,
        ViewportSize { width: fr(800, 1), height: fr(600, 1) },
        &cameras[0].transform,
        &cameras[0].projection,
    );
    let events = vec![MouseWheel { unit: MouseScrollUnit::Line, y: fr(1, 1) }];
    camera_2d_zoom(false, &mut cameras, &events, fr(1, 2));
    // The planar scale halved; the depth of the pass left other fields
    // alone.
    assert!(frac_is(cameras[0].transform.scale.x, 1, 2));
    assert!(frac_is(cameras[0].transform.scale.y, 1, 2));
    let after = screen_to_world(
        cursor,
        ViewportSize { width: fr(800, 1), height: fr(600, 1) },
        &cameras[0].transform,
        &cameras[0].projection,
    );
    assert_eq!(
        (before.x.num as i128) * (after.x.den as i128),
        (after.x.num as i128) * (before.x.den as i128)
    );
    assert_eq!(
        (before.y.num as i128) * (after.y.den as i128),
        (after.y.num as i128) * (before.y.den as i128)
    );
}

#[test]
fn pan_keeps_anchor_under_cursor() {
    let press_cursor = pt(fr(600, 1), fr(300, 1));
    let mut cameras = vec![test_camera(1, Some(press_cursor))];
    let mut anchors: HashMap<u64, Point2> = HashMap::new();
    camera_2d_pan(fresh_press(), false, &mut cameras, &mut anchors);
    let anchor = anchors[&1];
    assert!(frac_is(anchor.x, 200, 1));
    assert!(frac_is(anchor.y, 0, 1));

    // The cursor moved; the held pan must bring the anchor back under it.
    let held_cursor = pt(fr(700, 1), fr(350, 1));
    cameras[0].window = Some(CameraWindow {
        size: ViewportSize { width: fr(800, 1), height: fr(600, 1) },
        cursor: Some(held_cursor),
    });
    camera_2d_pan(held(), false, &mut cameras, &mut anchors);
    assert!(frac_is(cameras[0].transform.translation.x, -100, 1));
    assert!(frac_is(cameras[0].transform.translation.y, -50, 1));
    let after = screen_to_world(
        held_cursor,
        ViewportSize { width: fr(800, 1), height: fr(600, 1) },
        &cameras[0].transform,
        &cameras[0].projection,
    );
    assert_eq!(
        (after.x.num as i128) * (anchor.x.den as i128),
        (anchor.x.num as i128) * (after.x.den as i128)
    );
    assert_eq!(
        (after.y.num as i128) * (anchor.y.den as i128),
        (anchor.y.num as i128) * (after.y.den as i128)
    );
}

#[test]
fn pan_release_clears_anchors() {
    let mut cameras = vec![test_camera(1, Some(pt(fr(600, 1), fr(300, 1))))];
    let mut anchors: HashMap<u64, Point2> = HashMap::new();
    camera_2d_pan(fresh_press(), false, &mut cameras, &mut anchors);
    assert_eq!(anchors.len(), 1);
    camera_2d_pan(untouched(), false, &mut cameras, &mut anchors);
    assert_eq!(anchors.len(), 0);
}

#[test]
fn pan_press_over_ui_is_skipped() {
    let mut cameras = vec![test_camera(1, Some(pt(fr(600, 1), fr(300, 1))))];
    let mut anchors: HashMap<u64, Point2> = HashMap::new();
    camera_2d_pan(fresh_press(), true, &mut cameras, &mut anchors);
    assert_eq!(anchors.len(), 0);
    assert_eq!(cameras[0].transform.translation.x, fr(0, 1));
}

#[test]
fn camera_without_window_is_skipped() {
    let mut no_window = test_camera(9, None);
    no_window.window = None;
    let mut cameras = vec![no_window];
    let mut anchors: HashMap<u64, Point2> = HashMap::new();
    camera_2d_pan(fresh_press(), false, &mut cameras, &mut anchors);
    assert_eq!(anchors.len(), 0);
    let events = vec![MouseWheel { unit: MouseScrollUnit::Line, y: fr(1, 1) }];
    camera_2d_zoom(false, &mut cameras, &events, fr(1, 2));
    assert_eq!(cameras[0].transform.scale.x, fr(1, 1));
}
