//! The pointer interaction state machine: click versus drag versus
//! pending-click discrimination, per camera.
//!
//! Each tick the primary button's transition is sampled. When the button
//! is not touched at all, every camera's state is dropped back to idle.
//! Otherwise, for every camera whose window shows the cursor, the cursor
//! is projected into the world and the per-camera state advances:
//! a press over empty space arms a pending click, a press over a
//! selectable entity picks it up, movement past the click threshold
//! either cancels the pending click or drags the picked entity, and a
//! release within the threshold over empty space deselects.

use vstd::prelude::*;

use std::collections::HashMap;

use crate::geom::{screen_pt_wf, spec_moved_beyond, moved_beyond_threshold, Point2, RatPoint};
use crate::project::{screen_to_world, screen_to_world_fits, spec_camera_world, Camera2d};
use crate::select::{hit_fits, spec_hit, Affine2, YoleckSelectable};

verus! {

broadcast use vstd::std_specs::hash::group_hash_axioms;

/// The primary button's transition, resolved once per tick.
#[derive(Clone, Copy, Debug, PartialEq, Eq, Structural)]
pub enum MouseButtonOp {
    JustPressed,
    BeingPressed,
    JustReleased,
}

/// The level-sampled state of one mouse button for a tick.
#[derive(Clone, Copy, Debug)]
pub struct ButtonState {
    pub just_pressed: bool,
    pub pressed: bool,
    pub just_released: bool,
}

/// How a `ButtonState` resolves to a transition: a fresh press wins,
/// then a fresh release, then a continued hold; `None` when the button
/// is not touched at all.
pub open spec fn spec_button_op(b: ButtonState) -> Option<MouseButtonOp> {
    if b.just_pressed {
        Option::Some(MouseButtonOp::JustPressed)
    } else if b.just_released {
        Option::Some(MouseButtonOp::JustReleased)
    } else if b.pressed {
        Option::Some(MouseButtonOp::BeingPressed)
    } else {
        Option::None
    }
}

/// The shared "currently edited entity" slot, read and written by the
/// state machine and readable by the rest of the editor.
#[derive(Clone, Copy, Debug, PartialEq, Eq, Structural)]
pub struct YoleckState {
    pub entity_being_edited: Option<u64>,
}

/// An outbound request to move an entity; only an external authority may
/// apply it to the entity's transform.
#[derive(Clone, Copy, Debug, PartialEq, Eq, Structural)]
pub struct YoleckDirective {
    pub entity: u64,
    pub position: Point2,
}

pub ghost struct RatDirective {
    pub entity: u64,
    pub position: RatPoint,
}

impl YoleckDirective {
    pub open spec fn model(self) -> RatDirective {
        RatDirective { entity: self.entity, position: self.position.r() }
    }

    pub fn pass_to_entity(entity: u64, position: Point2) -> (d: YoleckDirective)
        ensures
            d.entity == entity,
            d.position == position,
    {
        YoleckDirective { entity, position }
    }
}

/// One selectable entity as sampled for a tick: its handle, its world
/// transform, and its selectable rectangle.
#[derive(Clone, Copy, Debug)]
pub struct SelectableEntity {
    pub entity: u64,
    pub transform: Affine2,
    pub selectable: YoleckSelectable,
}

impl SelectableEntity {
    pub open spec fn wf(self) -> bool {
        self.transform.wf() && self.selectable.wf()
    }
}

/// The per-camera interaction state. Stored screen points stay within
/// the screen bounds; that is the type's well-formedness.
#[derive(Clone, Copy, Debug, PartialEq, Eq, Structural)]
pub enum YoleckClicksOnObjectsState {
    Empty,
    PendingMidair { orig_screen_pos: Point2, world: Point2 },
    BeingDragged { entity: u64, prev_screen_pos: Point2, offset: Point2 },
}

/// The ghost mirror of the per-camera state, over unbounded rationals.
pub ghost enum RatClicksState {
    Empty,
    PendingMidair { orig: RatPoint, world: RatPoint },
    BeingDragged { entity: u64, prev: RatPoint, offset: RatPoint },
}

impl YoleckClicksOnObjectsState {
    pub open spec fn wf(self) -> bool {
        match self {
            YoleckClicksOnObjectsState::Empty => true,
            YoleckClicksOnObjectsState::PendingMidair { orig_screen_pos, world } => screen_pt_wf(
                orig_screen_pos,
            ) && world.wf(),
            YoleckClicksOnObjectsState::BeingDragged { entity, prev_screen_pos, offset } => screen_pt_wf(
                prev_screen_pos,
            ) && offset.wf(),
        }
    }

    pub open spec fn model(self) -> RatClicksState {
        match self {
            YoleckClicksOnObjectsState::Empty => RatClicksState::Empty,
            YoleckClicksOnObjectsState::PendingMidair { orig_screen_pos, world } => RatClicksState::PendingMidair {
                orig: orig_screen_pos.r(),
                world: world.r(),
            },
            YoleckClicksOnObjectsState::BeingDragged { entity, prev_screen_pos, offset } => RatClicksState::BeingDragged {
                entity: entity,
                prev: prev_screen_pos.r(),
                offset: offset.r(),
            },
        }
    }
}

pub open spec fn targets_wf(targets: Seq<SelectableEntity>) -> bool {
    forall|i: int| 0 <= i < targets.len() ==> (#[trigger] targets[i]).wf()
}

/// Machine limit: the hit test fits for every target at the world point.
pub open spec fn targets_fit(targets: Seq<SelectableEntity>, w: RatPoint) -> bool {
    forall|i: int| 0 <= i < targets.len() ==> hit_fits((#[trigger] targets[i]).transform.r(), w)
}

/// The first target, in iteration order, whose rectangle contains `w`.
pub open spec fn spec_first_hit(targets: Seq<SelectableEntity>, w: RatPoint) -> Option<SelectableEntity>
    decreases targets.len(),
{
    if targets.len() == 0 {
        Option::None
    } else if spec_hit(targets[0].selectable, targets[0].transform.r(), w) {
        Option::Some(targets[0])
    } else {
        spec_first_hit(targets.skip(1), w)
    }
}

/// The first target carrying the given handle.
pub open spec fn spec_find_by_entity(targets: Seq<SelectableEntity>, entity: u64) -> Option<SelectableEntity>
    decreases targets.len(),
{
    if targets.len() == 0 {
        Option::None
    } else if targets[0].entity == entity {
        Option::Some(targets[0])
    } else {
        spec_find_by_entity(targets.skip(1), entity)
    }
}

/// The entity, if any, that is still under the cursor.
pub open spec fn spec_still_hit(targets: Seq<SelectableEntity>, entity: u64, w: RatPoint) -> Option<SelectableEntity> {
    match spec_find_by_entity(targets, entity) {
        Option::Some(t) => if spec_hit(t.selectable, t.transform.r(), w) {
            Option::Some(t)
        } else {
            Option::None
        },
        Option::None => Option::None,
    }
}

/// Resolve what a fresh press picks: the currently edited entity if it
/// is still under the cursor, otherwise the first target under the
/// cursor in iteration order.
pub open spec fn spec_pick(targets: Seq<SelectableEntity>, edited: Option<u64>, w: RatPoint) -> Option<SelectableEntity> {
    match edited {
        Option::Some(e) => match spec_still_hit(targets, e, w) {
            Option::Some(t) => Option::Some(t),
            Option::None => spec_first_hit(targets, w),
        },
        Option::None => spec_first_hit(targets, w),
    }
}

/// First target under `w`, in iteration order; exactly `spec_first_hit`.
pub fn first_hit(targets: &Vec<SelectableEntity>, w: Point2) -> (r: Option<SelectableEntity>)
    requires
        targets_wf(targets@),
        targets_fit(targets@, w.r()),
        w.wf(),
    ensures
        r == spec_first_hit(targets@, w.r()),
{
    let ghost all = targets@;
    proof {
        assert(all.skip(0) =~= all);
    }
    let mut i: usize = 0;
    while i < targets.len()
        invariant
            i <= targets.len(),
            targets@ == all,
            targets_wf(all),
            targets_fit(all, w.r()),
            w.wf(),
            spec_first_hit(all, w.r()) == spec_first_hit(all.skip(i as int), w.r()),
        decreases targets.len() - i,
    {
        let t = targets[i];
        assert(all.skip(i as int)[0] == all[i as int]);
        if t.selectable.is_world_pos_in(&t.transform, w) {
            return Some(t);
        }
        proof {
            assert(all.skip(i as int).skip(1) =~= all.skip(i as int + 1));
        }
        i += 1;
    }
    None
}

/// First target with the given handle; exactly `spec_find_by_entity`.
pub fn find_by_entity(targets: &Vec<SelectableEntity>, entity: u64) -> (r: Option<SelectableEntity>)
    ensures
        r == spec_find_by_entity(targets@, entity),
{
    let ghost all = targets@;
    proof {
        assert(all.skip(0) =~= all);
    }
    let mut i: usize = 0;
    while i < targets.len()
        invariant
            i <= targets.len(),
            targets@ == all,
            spec_find_by_entity(all, entity) == spec_find_by_entity(all.skip(i as int), entity),
        decreases targets.len() - i,
    {
        let t = targets[i];
        assert(all.skip(i as int)[0] == all[i as int]);
        if t.entity == entity {
            return Some(t);
        }
        proof {
            assert(all.skip(i as int).skip(1) =~= all.skip(i as int + 1));
        }
        i += 1;
    }
    None
}

/// Resolve a fresh press; exactly `spec_pick`.
pub fn resolve_pick(targets: &Vec<SelectableEntity>, edited: Option<u64>, w: Point2) -> (r: Option<SelectableEntity>)
    requires
        targets_wf(targets@),
        targets_fit(targets@, w.r()),
        w.wf(),
    ensures
        r == spec_pick(targets@, edited, w.r()),
{
    if let Some(e) = edited {
        match find_by_entity(targets, e) {
            Some(t) => {
                proof {
                    lemma_find_by_entity_wf(targets@, e);
                }
                if t.selectable.is_world_pos_in(&t.transform, w) {
                    return Some(t);
                }
            },
            None => {},
        }
    }
    first_hit(targets, w)
}

/// A found target came out of the sequence, so it is well formed and its
/// hit test fits.
proof fn lemma_find_by_entity_wf(targets: Seq<SelectableEntity>, entity: u64)
    ensures
        match spec_find_by_entity(targets, entity) {
            Option::Some(t) => exists|i: int| 0 <= i < targets.len() && targets[i] == t,
            Option::None => true,
        },
    decreases targets.len(),
{
    if targets.len() == 0 {
    } else if targets[0].entity == entity {
        assert(targets[0] == targets[0]);
    } else {
        lemma_find_by_entity_wf(targets.skip(1), entity);
        assert forall|j: int| 0 <= j < targets.skip(1).len() implies targets.skip(1)[j]
            == targets[j + 1] by {}
    }
}

/// The same membership fact for `spec_first_hit`.
pub proof fn lemma_first_hit_member(targets: Seq<SelectableEntity>, w: RatPoint)
    ensures
        match spec_first_hit(targets, w) {
            Option::Some(t) => (exists|i: int| 0 <= i < targets.len() && targets[i] == t)
                && spec_hit(t.selectable, t.transform.r(), w),
            Option::None => true,
        },
    decreases targets.len(),
{
    if targets.len() == 0 {
    } else if spec_hit(targets[0].selectable, targets[0].transform.r(), w) {
        assert(targets[0] == targets[0]);
    } else {
        lemma_first_hit_member(targets.skip(1), w);
    }
}

/// Membership fact for `spec_pick`: whatever was picked is one of the
/// targets.
pub proof fn lemma_pick_member(targets: Seq<SelectableEntity>, edited: Option<u64>, w: RatPoint)
    ensures
        match spec_pick(targets, edited, w) {
            Option::Some(t) => exists|i: int| 0 <= i < targets.len() && targets[i] == t,
            Option::None => true,
        },
{
    if let Option::Some(e) = edited {
        lemma_find_by_entity_wf(targets, e);
    }
    lemma_first_hit_member(targets, w);
}

/// What one per-camera step produces.
#[derive(Clone, Copy, Debug)]
pub struct StepResult {
    pub state: YoleckClicksOnObjectsState,
    pub edited: Option<u64>,
    pub directive: Option<YoleckDirective>,
}

pub ghost struct RatStep {
    pub state: RatClicksState,
    pub edited: Option<u64>,
    pub directive: Option<RatDirective>,
}

impl StepResult {
    pub open spec fn model(self) -> RatStep {
        RatStep {
            state: self.state.model(),
            edited: self.edited,
            directive: match self.directive {
                Option::Some(d) => Option::Some(d.model()),
                Option::None => Option::None,
            },
        }
    }
}

/// The transition table of the state machine, per camera: from the
/// resolved button transition, the current state, the cursor's screen
/// and world points, the targets and the edited slot, to the new state,
/// the new edited slot, and the directive emitted, if any.
pub open spec fn spec_clicks_step(
    op: MouseButtonOp,
    state: RatClicksState,
    screen: RatPoint,
    world: RatPoint,
    targets: Seq<SelectableEntity>,
    edited: Option<u64>,
) -> RatStep {
    match (op, state) {
        (MouseButtonOp::JustPressed, RatClicksState::Empty) => match spec_pick(targets, edited, world) {
            Option::Some(t) => RatStep {
                state: RatClicksState::BeingDragged {
                    entity: t.entity,
                    prev: screen,
                    offset: Point2::spec_minus(world, t.transform.spec_translation()),
                },
                edited: Option::Some(t.entity),
                directive: Option::None,
            },
            Option::None => RatStep {
                state: RatClicksState::PendingMidair { orig: screen, world: world },
                edited: edited,
                directive: Option::None,
            },
        },
        (MouseButtonOp::BeingPressed, RatClicksState::PendingMidair { orig, world: w0 }) => RatStep {
            state: if spec_moved_beyond(orig, screen) {
                RatClicksState::Empty
            } else {
                RatClicksState::PendingMidair { orig, world: w0 }
            },
            edited: edited,
            directive: Option::None,
        },
        (MouseButtonOp::JustReleased, RatClicksState::PendingMidair { orig, world: w0 }) => RatStep {
            state: RatClicksState::Empty,
            edited: if !spec_moved_beyond(orig, screen) {
                Option::None
            } else {
                edited
            },
            directive: Option::None,
        },
        (MouseButtonOp::BeingPressed, RatClicksState::BeingDragged { entity, prev, offset }) => {
            if spec_moved_beyond(prev, screen) {
                RatStep {
                    state: RatClicksState::BeingDragged { entity, prev: screen, offset },
                    edited: edited,
                    directive: Option::Some(
                        RatDirective { entity, position: Point2::spec_minus(world, offset) },
                    ),
                }
            } else {
                RatStep {
                    state: RatClicksState::BeingDragged { entity, prev, offset },
                    edited: edited,
                    directive: Option::None,
                }
            }
        },
        (_, s) => RatStep { state: s, edited: edited, directive: Option::None },
    }
}

/// Machine limit: the arithmetic of one step fits the executable
/// representation.
pub open spec fn step_fits(
    op: MouseButtonOp,
    state: RatClicksState,
    screen: RatPoint,
    world: RatPoint,
    targets: Seq<SelectableEntity>,
    edited: Option<u64>,
) -> bool {
    match (op, state) {
        (MouseButtonOp::JustPressed, RatClicksState::Empty) => {
            &&& targets_fit(targets, world)
            &&& match spec_pick(targets, edited, world) {
                Option::Some(t) => {
                    &&& world.x.minus(t.transform.spec_translation().x).in_range()
                    &&& world.y.minus(t.transform.spec_translation().y).in_range()
                },
                Option::None => true,
            }
        },
        (MouseButtonOp::BeingPressed, RatClicksState::BeingDragged { entity, prev, offset }) => {
            spec_moved_beyond(prev, screen) ==> {
                &&& world.x.minus(offset.x).in_range()
                &&& world.y.minus(offset.y).in_range()
            }
        },
        _ => true,
    }
}

/// One step of the state machine; exactly `spec_clicks_step`.
pub fn clicks_step(
    op: MouseButtonOp,
    state: YoleckClicksOnObjectsState,
    screen_pos: Point2,
    world_pos: Point2,
    targets: &Vec<SelectableEntity>,
    entity_being_edited: Option<u64>,
) -> (r: StepResult)
    requires
        state.wf(),
        screen_pt_wf(screen_pos),
        world_pos.wf(),
        targets_wf(targets@),
        step_fits(op, state.model(), screen_pos.r(), world_pos.r(), targets@, entity_being_edited),
    ensures
        r.state.wf(),
        r.model() == spec_clicks_step(
            op,
            state.model(),
            screen_pos.r(),
            world_pos.r(),
            targets@,
            entity_being_edited,
        ),
{
    match (op, state) {
        (MouseButtonOp::JustPressed, YoleckClicksOnObjectsState::Empty) => {
            match resolve_pick(targets, entity_being_edited, world_pos) {
                Some(t) => {
                    proof {
                        lemma_pick_member(targets@, entity_being_edited, world_pos.r());
                    }
                    let offset = world_pos.minus(t.transform.translation());
                    StepResult {
                        state: YoleckClicksOnObjectsState::BeingDragged {
                            entity: t.entity,
                            prev_screen_pos: screen_pos,
                            offset,
                        },
                        edited: Some(t.entity),
                        directive: None,
                    }
                },
                None => StepResult {
                    state: YoleckClicksOnObjectsState::PendingMidair {
                        orig_screen_pos: screen_pos,
                        world: world_pos,
                    },
                    edited: entity_being_edited,
                    directive: None,
                },
            }
        },
        (MouseButtonOp::BeingPressed, YoleckClicksOnObjectsState::PendingMidair { orig_screen_pos, world }) => {
            let new_state = if moved_beyond_threshold(orig_screen_pos, screen_pos) {
                YoleckClicksOnObjectsState::Empty
            } else {
                YoleckClicksOnObjectsState::PendingMidair { orig_screen_pos, world }
            };
            StepResult { state: new_state, edited: entity_being_edited, directive: None }
        },
        (MouseButtonOp::JustReleased, YoleckClicksOnObjectsState::PendingMidair { orig_screen_pos, world }) => {
            let moved = moved_beyond_threshold(orig_screen_pos, screen_pos);
            StepResult {
                state: YoleckClicksOnObjectsState::Empty,
                edited: if !moved {
                    None
                } else {
                    entity_being_edited
                },
                directive: None,
            }
        },
        (MouseButtonOp::BeingPressed, YoleckClicksOnObjectsState::BeingDragged { entity, prev_screen_pos, offset }) => {
            if moved_beyond_threshold(prev_screen_pos, screen_pos) {
                let directive = YoleckDirective::pass_to_entity(entity, world_pos.minus(offset));
                StepResult {
                    state: YoleckClicksOnObjectsState::BeingDragged {
                        entity,
                        prev_screen_pos: screen_pos,
                        offset,
                    },
                    edited: entity_being_edited,
                    directive: Some(directive),
                }
            } else {
                StepResult {
                    state: YoleckClicksOnObjectsState::BeingDragged {
                        entity,
                        prev_screen_pos,
                        offset,
                    },
                    edited: entity_being_edited,
                    directive: None,
                }
            }
        },
        (_, s) => StepResult { state: s, edited: entity_being_edited, directive: None },
    }
}

/// The ghost mirror of the per-camera state map.
pub open spec fn states_model(m: Map<u64, YoleckClicksOnObjectsState>) -> Map<u64, RatClicksState> {
    m.map_values(|s: YoleckClicksOnObjectsState| s.model())
}

pub open spec fn states_wf(m: Map<u64, YoleckClicksOnObjectsState>) -> bool {
    forall|k: u64| m.dom().contains(k) ==> (#[trigger] m[k]).wf()
}

pub open spec fn dirs_model(s: Seq<YoleckDirective>) -> Seq<RatDirective> {
    s.map_values(|d: YoleckDirective| d.model())
}

pub open spec fn cameras_wf(cams: Seq<Camera2d>) -> bool {
    forall|i: int| 0 <= i < cams.len() ==> (#[trigger] cams[i]).wf()
}

/// The whole pass over the cameras, in order: for each camera that has a
/// window showing the cursor, the cursor is projected and the state
/// machine steps once, threading the per-camera state map, the edited
/// slot and the emitted directives through.
pub open spec fn spec_clicks_pass(
    cams: Seq<Camera2d>,
    targets: Seq<SelectableEntity>,
    op: MouseButtonOp,
    m: Map<u64, RatClicksState>,
    edited: Option<u64>,
    dirs: Seq<RatDirective>,
) -> (Map<u64, RatClicksState>, Option<u64>, Seq<RatDirective>)
    decreases cams.len(),
{
    if cams.len() == 0 {
        (m, edited, dirs)
    } else {
        let c = cams[0];
        let rest = cams.skip(1);
        match c.window {
            Option::None => spec_clicks_pass(rest, targets, op, m, edited, dirs),
            Option::Some(win) => match win.cursor {
                Option::None => spec_clicks_pass(rest, targets, op, m, edited, dirs),
                Option::Some(screen) => {
                    let world = spec_camera_world(c, screen);
                    let st = if m.dom().contains(c.camera) {
                        m[c.camera]
                    } else {
                        RatClicksState::Empty
                    };
                    let sr = spec_clicks_step(op, st, screen.r(), world, targets, edited);
                    let dirs2 = match sr.directive {
                        Option::Some(d) => dirs.push(d),
                        Option::None => dirs,
                    };
                    spec_clicks_pass(rest, targets, op, m.insert(c.camera, sr.state), sr.edited, dirs2)
                },
            },
        }
    }
}

/// Machine limit: every projection and every step of the pass fits the
/// executable representation.
pub open spec fn spec_clicks_pass_fits(
    cams: Seq<Camera2d>,
    targets: Seq<SelectableEntity>,
    op: MouseButtonOp,
    m: Map<u64, RatClicksState>,
    edited: Option<u64>,
) -> bool
    decreases cams.len(),
{
    if cams.len() == 0 {
        true
    } else {
        let c = cams[0];
        let rest = cams.skip(1);
        match c.window {
            Option::None => spec_clicks_pass_fits(rest, targets, op, m, edited),
            Option::Some(win) => match win.cursor {
                Option::None => spec_clicks_pass_fits(rest, targets, op, m, edited),
                Option::Some(screen) => {
                    let world = spec_camera_world(c, screen);
                    let st = if m.dom().contains(c.camera) {
                        m[c.camera]
                    } else {
                        RatClicksState::Empty
                    };
                    let sr = spec_clicks_step(op, st, screen.r(), world, targets, edited);
                    &&& screen_to_world_fits(screen.r(), win.size.r(), c.projection.r(), c.transform.r())
                    &&& step_fits(op, st, screen.r(), world, targets, edited)
                    &&& spec_clicks_pass_fits(rest, targets, op, m.insert(c.camera, sr.state), sr.edited)
                },
            },
        }
    }
}

/// The per-tick interaction pass.
///
/// When the primary button is not touched at all, every camera's state
/// is cleared and nothing else happens; when a fresh press lands on the
/// UI overlay, the whole pass is skipped. Otherwise every camera with a
/// window showing the cursor advances its state machine once, in order,
/// and the final states, edited slot and appended directives are exactly
/// those of `spec_clicks_pass`.
pub fn yoleck_clicks_on_objects(
    buttons: ButtonState,
    pointer_over_ui: bool,
    cameras: &Vec<Camera2d>,
    targets: &Vec<SelectableEntity>,
    yoleck: &mut YoleckState,
    state_by_camera: &mut HashMap<u64, YoleckClicksOnObjectsState>,
    directives: &mut Vec<YoleckDirective>,
)
    requires
        cameras_wf(cameras@),
        targets_wf(targets@),
        states_wf(old(state_by_camera)@),
        match spec_button_op(buttons) {
            Option::Some(op) => op == MouseButtonOp::JustPressed && pointer_over_ui
                || spec_clicks_pass_fits(
                cameras@,
                targets@,
                op,
                states_model(old(state_by_camera)@),
                old(yoleck).entity_being_edited,
            ),
            Option::None => true,
        },
    ensures
        states_wf(final(state_by_camera)@),
        match spec_button_op(buttons) {
            Option::None => {
                &&& final(state_by_camera)@ == Map::<u64, YoleckClicksOnObjectsState>::empty()
                &&& *final(yoleck) == *old(yoleck)
                &&& final(directives)@ == old(directives)@
            },
            Option::Some(op) => if op == MouseButtonOp::JustPressed && pointer_over_ui {
                &&& *final(state_by_camera) == *old(state_by_camera)
                &&& *final(yoleck) == *old(yoleck)
                &&& final(directives)@ == old(directives)@
            } else {
                (
                    states_model(final(state_by_camera)@),
                    final(yoleck).entity_being_edited,
                    dirs_model(final(directives)@),
                ) == spec_clicks_pass(
                    cameras@,
                    targets@,
                    op,
                    states_model(old(state_by_camera)@),
                    old(yoleck).entity_being_edited,
                    dirs_model(old(directives)@),
                )
            },
        },
{
    let op = if buttons.just_pressed {
        if pointer_over_ui {
            return ;
        }
        MouseButtonOp::JustPressed
    } else if buttons.just_released {
        MouseButtonOp::JustReleased
    } else if buttons.pressed {
        MouseButtonOp::BeingPressed
    } else {
        state_by_camera.clear();
        return ;
    };
    let ghost goal = spec_clicks_pass(
        cameras@,
        targets@,
        op,
        states_model(old(state_by_camera)@),
        old(yoleck).entity_being_edited,
        dirs_model(old(directives)@),
    );
    proof {
        assert(cameras@.skip(0) =~= cameras@);
    }
    let mut i: usize = 0;
    while i < cameras.len()
        invariant
            i <= cameras.len(),
            cameras_wf(cameras@),
            targets_wf(targets@),
            states_wf(state_by_camera@),
            spec_clicks_pass(
                cameras@.skip(i as int),
                targets@,
                op,
                states_model(state_by_camera@),
                yoleck.entity_being_edited,
                dirs_model(directives@),
            ) == goal,
            spec_clicks_pass_fits(
                cameras@.skip(i as int),
                targets@,
                op,
                states_model(state_by_camera@),
                yoleck.entity_being_edited,
            ),
        decreases cameras.len() - i,
    {
        let ghost pre_states = states_model(state_by_camera@);
        let ghost pre_edited = yoleck.entity_being_edited;
        let ghost pre_dirs = dirs_model(directives@);
        let cam = &cameras[i];
        assert(cameras@.skip(i as int)[0] == cameras@[i as int]);
        match &cam.window {
            Some(win) => match win.cursor {
                Some(screen_pos) => {
                    let world_pos = screen_to_world(
                        screen_pos,
                        win.size,
                        &cam.transform,
                        &cam.projection,
                    );
                    let state = match state_by_camera.get(&cam.camera) {
                        Some(s) => *s,
                        None => YoleckClicksOnObjectsState::Empty,
                    };
                    assert(state.model() == if pre_states.dom().contains(cam.camera) {
                        pre_states[cam.camera]
                    } else {
                        RatClicksState::Empty
                    });
                    let sr = clicks_step(
                        op,
                        state,
                        screen_pos,
                        world_pos,
                        targets,
                        yoleck.entity_being_edited,
                    );
                    state_by_camera.insert(cam.camera, sr.state);
                    yoleck.entity_being_edited = sr.edited;
                    match sr.directive {
                        Some(d) => directives.push(d),
                        None => {},
                    }
                    proof {
                        assert(states_model(state_by_camera@) =~= pre_states.insert(
                            cam.camera,
                            sr.state.model(),
                        ));
                        match sr.directive {
                            Some(d) => {
                                assert(dirs_model(directives@) =~= pre_dirs.push(d.model()));
                            },
                            None => {},
                        }
                    }
                },
                None => {},
            },
            None => {},
        }
        proof {
            assert(cameras@.skip(i as int).skip(1) =~= cameras@.skip(i as int + 1));
        }
        i += 1;
    }
    proof {
        assert(cameras@.skip(cameras@.len() as int).len() == 0);
    }
}

/// The interaction state a camera reads out of a state map: idle unless
/// the map holds another state for it.
pub open spec fn spec_state_of(m: Map<u64, RatClicksState>, camera: u64) -> RatClicksState {
    if m.dom().contains(camera) {
        m[camera]
    } else {
        RatClicksState::Empty
    }
}

/// Law: whenever the primary button is not held at the start of a tick
/// (no fresh press, no hold, no fresh release), `yoleck_clicks_on_objects`
/// clears the state map, so every camera's interaction state is idle at
/// the end of that tick.
pub proof fn lemma_untouched_button_idles_every_camera(b: ButtonState, camera: u64)
    requires
        spec_button_op(b) is None,
    ensures
        spec_state_of(states_model(Map::<u64, YoleckClicksOnObjectsState>::empty()), camera)
            == RatClicksState::Empty,
{
}

/// Law (click-to-deselect): a press over empty space followed by a
/// release within the click threshold clears the edited-entity slot and
/// returns to idle.
pub proof fn lemma_click_on_empty_space_deselects(
    screen1: RatPoint,
    world1: RatPoint,
    screen2: RatPoint,
    world2: RatPoint,
    targets: Seq<SelectableEntity>,
    edited: Option<u64>,
)
    requires
        spec_pick(targets, edited, world1) is None,
        !spec_moved_beyond(screen1, screen2),
    ensures
        ({
            let s1 = spec_clicks_step(
                MouseButtonOp::JustPressed,
                RatClicksState::Empty,
                screen1,
                world1,
                targets,
                edited,
            );
            let s2 = spec_clicks_step(
                MouseButtonOp::JustReleased,
                s1.state,
                screen2,
                world2,
                targets,
                s1.edited,
            );
            s2.edited is None && s2.state is Empty
        }),
{
}

/// Law (drag-cancels-click): a press over empty space, a move past the
/// click threshold, then a release leave the edited-entity slot exactly
/// as it was; no deselection happens.
pub proof fn lemma_drag_over_empty_space_keeps_selection(
    screen1: RatPoint,
    world1: RatPoint,
    screen2: RatPoint,
    world2: RatPoint,
    screen3: RatPoint,
    world3: RatPoint,
    targets: Seq<SelectableEntity>,
    edited: Option<u64>,
)
    requires
        spec_pick(targets, edited, world1) is None,
        spec_moved_beyond(screen1, screen2),
    ensures
        ({
            let s1 = spec_clicks_step(
                MouseButtonOp::JustPressed,
                RatClicksState::Empty,
                screen1,
                world1,
                targets,
                edited,
            );
            let s2 = spec_clicks_step(
                MouseButtonOp::BeingPressed,
                s1.state,
                screen2,
                world2,
                targets,
                s1.edited,
            );
            let s3 = spec_clicks_step(
                MouseButtonOp::JustReleased,
                s2.state,
                screen3,
                world3,
                targets,
                s2.edited,
            );
            s3.edited == edited && s2.state is Empty && s3.state is Empty
        }),
{
}

/// Law (pick-and-drag): a press over a selectable entity makes it the
/// edited entity and fixes the grab offset as `world - translation` at
/// the moment of the press; each later move past the click threshold
/// emits a directive whose position is the cursor's world point minus
/// that same fixed offset.
pub proof fn lemma_pick_and_drag_emits_directives(
    screen1: RatPoint,
    world1: RatPoint,
    screen2: RatPoint,
    world2: RatPoint,
    screen3: RatPoint,
    world3: RatPoint,
    targets: Seq<SelectableEntity>,
    edited: Option<u64>,
)
    requires
        spec_pick(targets, edited, world1) is Some,
        spec_moved_beyond(screen1, screen2),
        spec_moved_beyond(screen2, screen3),
    ensures
        ({
            let t = spec_pick(targets, edited, world1)->Some_0;
            let offset0 = Point2::spec_minus(world1, t.transform.spec_translation());
            let s1 = spec_clicks_step(
                MouseButtonOp::JustPressed,
                RatClicksState::Empty,
                screen1,
                world1,
                targets,
                edited,
            );
            let s2 = spec_clicks_step(
                MouseButtonOp::BeingPressed,
                s1.state,
                screen2,
                world2,
                targets,
                s1.edited,
            );
            let s3 = spec_clicks_step(
                MouseButtonOp::BeingPressed,
                s2.state,
                screen3,
                world3,
                targets,
                s2.edited,
            );
            &&& s1.edited == Option::Some(t.entity)
            &&& s1.state == (RatClicksState::BeingDragged {
                entity: t.entity,
                prev: screen1,
                offset: offset0,
            })
            &&& s2.directive == Option::Some(
                RatDirective { entity: t.entity, position: Point2::spec_minus(world2, offset0) },
            )
            &&& s3.directive == Option::Some(
                RatDirective { entity: t.entity, position: Point2::spec_minus(world3, offset0) },
            )
            &&& s3.state == (RatClicksState::BeingDragged {
                entity: t.entity,
                prev: screen3,
                offset: offset0,
            })
        }),
{
}

} // verus!
