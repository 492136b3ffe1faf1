//! The hit tester, the click/drag state machine, and the identity
//! registry, on concrete scenes.

use std::collections::HashMap;

use yoleck::clicks::{
    clicks_step, yoleck_clicks_on_objects, ButtonState, MouseButtonOp, SelectableEntity,
    YoleckClicksOnObjectsState, YoleckDirective, YoleckState,
};
use yoleck::entity_uuid::{YoleckEntityUuid, YoleckUuidRegistry};
use yoleck::frac::Frac;
use yoleck::geom::{moved_beyond_threshold, Point2};
use yoleck::project::{Camera2d, CameraProjection, CameraTransform, CameraWindow, ViewportSize};
use yoleck::select::{Affine2, YoleckSelectable};

fn fr(num: i64, den: i64) -> Frac {
    Frac::new(num, den)
}

fn pt(x: Frac, y: Frac) -> Point2 {
    Point2 { x, y }
}

fn frac_is(f: Frac, num: i64, den: i64) -> bool {
    (f.num as i128) * (den as i128) == (num as i128) * (f.den as i128)
}

fn identity() -> Affine2 {
    Affine2 {
        m11: fr(1, 1),
        m12: fr(0, 1),
        m21: fr(0, 1),
        m22: fr(1, 1),
        tx: fr(0, 1),
        ty: fr(0, 1),
    }
}

/// Same scene as the camera tests: screen (400, 300) is world (0, 0) and
/// one screen pixel is one world unit.
fn test_camera(camera: u64, cursor: Option<Point2>) -> Camera2d {
    Camera2d {
        camera,
        transform: CameraTransform {
            scale: pt(fr(1, 1), fr(1, 1)),
            translation: pt(fr(0, 1), fr(0, 1)),
        },
        projection: CameraProjection {
            scale: pt(fr(1, 400), fr(1, 300)),
            offset: pt(fr(0, 1), fr(0, 1)),
        },
        window: Some(CameraWindow {
            size: ViewportSize { width: fr(800, 1), height: fr(600, 1) },
            cursor,
        }),
    }
}

fn press() -> ButtonState {
    ButtonState { just_pressed: true, pressed: true, just_released: false }
}

fn hold() -> ButtonState {
    ButtonState { just_pressed: false, pressed: true, just_released: false }
}

fn release() -> ButtonState {
    ButtonState { just_pressed: false, pressed: false, just_released: true }
}

fn untouched() -> ButtonState {
    ButtonState { just_pressed: false, pressed: false, just_released: false }
}

#[test]
fn unit_rectangle_hit_test() {
    let sel = YoleckSelectable::rect(fr(2, 1), fr(2, 1));
    assert!(frac_is(sel.left, -1, 1));
    assert!(frac_is(sel.right, 1, 1));
    assert!(frac_is(sel.top, -1, 1));
    assert!(frac_is(sel.bottom, 1, 1));
    let t = identity();
    assert!(sel.is_world_pos_in(&t, pt(fr(1, 2), fr(1, 2))));
    assert!(!sel.is_world_pos_in(&t, pt(fr(3, 2), fr(0, 1))));
}

#[test]
fn hit_test_bounds_are_inclusive() {
    let sel = YoleckSelectable::rect(fr(2, 1), fr(2, 1));
    let t = identity();
    assert!(sel.is_world_pos_in(&t, pt(fr(1, 1), fr(1, 1))));
    assert!(sel.is_world_pos_in(&t, pt(fr(-1, 1), fr(-1, 1))));
    assert!(!sel.is_world_pos_in(&t, pt(fr(1, 1), fr(-101, 100))));
}

#[test]
fn hit_test_respects_translation_and_rotation() {
    let sel = YoleckSelectable::rect(fr(2, 1), fr(2, 1));
    // A quarter turn with a translation of (10, 0).
    let t = Affine2 {
        m11: fr(0, 1),
        m12: fr(-1, 1),
        m21: fr(1, 1),
        m22: fr(0, 1),
        tx: fr(10, 1),
        ty: fr(0, 1),
    };
    assert!(sel.is_world_pos_in(&t, pt(fr(21, 2), fr(1, 2))));
    assert!(!sel.is_world_pos_in(&t, pt(fr(25, 2), fr(0, 1))));
}

#[test]
fn degenerate_transform_never_hits() {
    let sel = YoleckSelectable::rect(fr(2, 1), fr(2, 1));
    let t = Affine2 {
        m11: fr(0, 1),
        m12: fr(0, 1),
        m21: fr(0, 1),
        m22: fr(0, 1),
        tx: fr(0, 1),
        ty: fr(0, 1),
    };
    assert!(!sel.is_world_pos_in(&t, pt(fr(0, 1), fr(0, 1))));
}

#[test]
fn moved_beyond_threshold_discriminates() {
    // A quarter-unit step: squared distance 1/16 + 1/16 = 1/8 >= 1/10.
    let a = pt(fr(0, 1), fr(0, 1));
    assert!(moved_beyond_threshold(a, pt(fr(1, 4), fr(1, 4))));
    // Squared distance 1/16 < 1/10.
    assert!(!moved_beyond_threshold(a, pt(fr(1, 4), fr(0, 1))));
}

struct Scene {
    cameras: Vec<Camera2d>,
    targets: Vec<SelectableEntity>,
    yoleck: YoleckState,
    states: HashMap<u64, YoleckClicksOnObjectsState>,
    directives: Vec<YoleckDirective>,
}

impl Scene {
    fn new(targets: Vec<SelectableEntity>, edited: Option<u64>) -> Scene {
        Scene {
            cameras: vec![test_camera(1, None)],
            targets,
            yoleck: YoleckState { entity_being_edited: edited },
            states: HashMap::new(),
            directives: Vec::new(),
        }
    }

    fn tick(&mut self, buttons: ButtonState, over_ui: bool, cursor: Point2) {
        self.cameras[0].window = Some(CameraWindow {
            size: ViewportSize { width: fr(800, 1), height: fr(600, 1) },
            cursor: Some(cursor),
        });
        yoleck_clicks_on_objects(
            buttons,
            over_ui,
            &self.cameras,
            &self.targets,
            &mut self.yoleck,
            &mut self.states,
            &mut self.directives,
        );
    }
}

#[test]
fn click_on_empty_space_deselects() {
    let mut scene = Scene::new(vec![], Some(7));
    let cursor = pt(fr(100, 1), fr(100, 1));
    scene.tick(press(), false, cursor);
    assert_eq!(scene.yoleck.entity_being_edited, Some(7));
    scene.tick(release(), false, cursor);
    assert_eq!(scene.yoleck.entity_being_edited, None);
    assert_eq!(scene.states[&1], YoleckClicksOnObjectsState::Empty);
    assert!(scene.directives.is_empty());
}

#[test]
fn drag_over_empty_space_keeps_selection() {
    let mut scene = Scene::new(vec![], Some(7));
    scene.tick(press(), false, pt(fr(100, 1), fr(100, 1)));
    scene.tick(hold(), false, pt(fr(140, 1), fr(100, 1)));
    assert_eq!(scene.states[&1], YoleckClicksOnObjectsState::Empty);
    scene.tick(release(), false, pt(fr(140, 1), fr(100, 1)));
    assert_eq!(scene.yoleck.entity_being_edited, Some(7));
    assert!(scene.directives.is_empty());
}

#[test]
fn press_over_ui_reaches_nothing() {
    let mut scene = Scene::new(vec![], Some(7));
    scene.tick(press(), true, pt(fr(100, 1), fr(100, 1)));
    assert_eq!(scene.yoleck.entity_being_edited, Some(7));
    assert!(scene.states.is_empty());
}

#[test]
fn untouched_button_idles_every_camera() {
    let mut scene = Scene::new(vec![], None);
    scene.tick(press(), false, pt(fr(100, 1), fr(100, 1)));
    assert_eq!(scene.states.len(), 1);
    scene.tick(untouched(), false, pt(fr(100, 1), fr(100, 1)));
    assert!(scene.states.is_empty());
}

#[test]
fn pick_and_drag_emits_directives() {
    // A 40x40 rectangle sitting at world (0, 0): hit by screen (400, 300).
    let target = SelectableEntity {
        entity: 42,
        transform: identity(),
        selectable: YoleckSelectable::rect(fr(40, 1), fr(40, 1)),
    };
    let mut scene = Scene::new(vec![target], None);
    scene.tick(press(), false, pt(fr(400, 1), fr(300, 1)));
    assert_eq!(scene.yoleck.entity_being_edited, Some(42));
    assert!(scene.directives.is_empty());

    // Dragging ten pixels right: the directive asks for world (10, 0).
    scene.tick(hold(), false, pt(fr(410, 1), fr(300, 1)));
    assert_eq!(scene.directives.len(), 1);
    assert_eq!(scene.directives[0].entity, 42);
    assert!(frac_is(scene.directives[0].position.x, 10, 1));
    assert!(frac_is(scene.directives[0].position.y, 0, 1));

    // And further: the grab offset stays fixed at its press-time value.
    scene.tick(hold(), false, pt(fr(425, 1), fr(300, 1)));
    assert_eq!(scene.directives.len(), 2);
    assert!(frac_is(scene.directives[1].position.x, 25, 1));
}

#[test]
fn grab_offset_is_captured_at_press() {
    // The rectangle sits at world (20, 0); pressing at its edge keeps the
    // grab point, so dragging moves the entity relative to that point.
    let transform = Affine2 {
        m11: fr(1, 1),
        m12: fr(0, 1),
        m21: fr(0, 1),
        m22: fr(1, 1),
        tx: fr(20, 1),
        ty: fr(0, 1),
    };
    let target = SelectableEntity {
        entity: 5,
        transform,
        selectable: YoleckSelectable::rect(fr(20, 1), fr(20, 1)),
    };
    let mut scene = Scene::new(vec![target], None);
    // Screen (415, 300) is world (15, 0): inside, grab offset (-5, 0).
    scene.tick(press(), false, pt(fr(415, 1), fr(300, 1)));
    assert_eq!(scene.yoleck.entity_being_edited, Some(5));
    scene.tick(hold(), false, pt(fr(430, 1), fr(300, 1)));
    assert_eq!(scene.directives.len(), 1);
    assert!(frac_is(scene.directives[0].position.x, 35, 1));
}

#[test]
fn edited_entity_is_preferred_on_press() {
    let front = SelectableEntity {
        entity: 1,
        transform: identity(),
        selectable: YoleckSelectable::rect(fr(40, 1), fr(40, 1)),
    };
    let back = SelectableEntity {
        entity: 2,
        transform: identity(),
        selectable: YoleckSelectable::rect(fr(40, 1), fr(40, 1)),
    };
    // Both rectangles contain world (0, 0); the edited one wins even
    // though the other comes first in iteration order.
    let mut scene = Scene::new(vec![front, back], Some(2));
    scene.tick(press(), false, pt(fr(400, 1), fr(300, 1)));
    assert_eq!(scene.yoleck.entity_being_edited, Some(2));
}

#[test]
fn first_target_in_order_wins_without_selection() {
    let front = SelectableEntity {
        entity: 1,
        transform: identity(),
        selectable: YoleckSelectable::rect(fr(40, 1), fr(40, 1)),
    };
    let back = SelectableEntity {
        entity: 2,
        transform: identity(),
        selectable: YoleckSelectable::rect(fr(40, 1), fr(40, 1)),
    };
    let mut scene = Scene::new(vec![front, back], None);
    scene.tick(press(), false, pt(fr(400, 1), fr(300, 1)));
    assert_eq!(scene.yoleck.entity_being_edited, Some(1));
}

#[test]
fn registry_maps_identifier_to_live_handle() {
    let mut registry = YoleckUuidRegistry::new();
    assert_eq!(registry.get(77), None);
    registry.record_spawn(77, 3);
    registry.record_spawn(88, 4);
    assert_eq!(registry.get(77), Some(3));
    assert_eq!(registry.get(88), Some(4));
    registry.record_despawn(77);
    assert_eq!(registry.get(77), None);
    assert_eq!(registry.get(88), Some(4));
}

#[test]
fn entity_uuid_reports_its_identifier() {
    let id = YoleckEntityUuid::new(0x1234_5678_9abc_def0_1122_3344_5566_7788);
    assert_eq!(id.get(), 0x1234_5678_9abc_def0_1122_3344_5566_7788);
}

#[test]
fn release_while_dragging_falls_through() {
    // A release edge in the dragging state is not a matched transition:
    // the state only resets on the next tick with no press at all.
    let state = YoleckClicksOnObjectsState::BeingDragged {
        entity: 42,
        prev_screen_pos: pt(fr(400, 1), fr(300, 1)),
        offset: pt(fr(0, 1), fr(0, 1)),
    };
    let targets: Vec<SelectableEntity> = vec![];
    let r = clicks_step(
        MouseButtonOp::JustReleased,
        state,
        pt(fr(400, 1), fr(300, 1)),
        pt(fr(0, 1), fr(0, 1)),
        &targets,
        Some(42),
    );
    assert_eq!(r.state, state);
    assert_eq!(r.edited, Some(42));
    assert_eq!(r.directive, None);
}

#[test]
fn pending_click_survives_small_movement() {
    let press_pos = pt(fr(100, 1), fr(100, 1));
    let state = YoleckClicksOnObjectsState::PendingMidair {
        orig_screen_pos: press_pos,
        world: pt(fr(-300, 1), fr(-200, 1)),
    };
    let targets: Vec<SelectableEntity> = vec![];
    // A quarter-pixel wiggle is below the click threshold.
    let r = clicks_step(
        MouseButtonOp::BeingPressed,
        state,
        pt(fr(401, 4), fr(100, 1)),
        pt(fr(0, 1), fr(0, 1)),
        &targets,
        Some(7),
    );
    assert_eq!(r.state, state);
    assert_eq!(r.edited, Some(7));
    assert_eq!(r.directive, None);
}
