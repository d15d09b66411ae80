use eryndor::input::{drag_update, movement_intent, CursorChange, InputButtons};
use eryndor::movement_states::{
    animation_clip, movement_behavior, update_movement_state, AnimationState, MovementBehaviorKind,
    MovementState,
};

fn idle_buttons() -> InputButtons {
    InputButtons {
        forward: false,
        backward: false,
        left: false,
        right: false,
        up: false,
        down: false,
        mouse_left_held: false,
        mouse_right_held: false,
    }
}

#[test]
fn behaviours_per_state() {
    assert_eq!(movement_behavior(MovementState::Walking, true), MovementBehaviorKind::Ground);
    assert_eq!(movement_behavior(MovementState::Idle, false), MovementBehaviorKind::Air);
    assert_eq!(movement_behavior(MovementState::Sliding, true), MovementBehaviorKind::Sliding);
    assert_eq!(movement_behavior(MovementState::Jumping, true), MovementBehaviorKind::Air);
    assert_eq!(movement_behavior(MovementState::Landing, false), MovementBehaviorKind::Still);
    assert_eq!(movement_behavior(MovementState::SteppingUp, true), MovementBehaviorKind::Still);
}

#[test]
fn ground_state_follows_speed() {
    assert_eq!(update_movement_state(MovementState::Idle, true, false), MovementState::Walking);
    assert_eq!(update_movement_state(MovementState::Walking, true, true), MovementState::Running);
    assert_eq!(update_movement_state(MovementState::Running, false, false), MovementState::Idle);
    assert_eq!(update_movement_state(MovementState::Jumping, true, true), MovementState::Jumping);
    assert_eq!(update_movement_state(MovementState::Sliding, false, false), MovementState::Sliding);
}

#[test]
fn animations_for_states() {
    assert_eq!(AnimationState::from(MovementState::Sliding), AnimationState::Walking);
    assert_eq!(AnimationState::from(MovementState::SteppingUp), AnimationState::Walking);
    assert_eq!(AnimationState::from(MovementState::Falling), AnimationState::Falling);
    assert_eq!(AnimationState::from(MovementState::Idle), AnimationState::Idle);
    assert_eq!(animation_clip(AnimationState::Idle), (0, true));
    assert_eq!(animation_clip(AnimationState::Jumping), (3, false));
    assert_eq!(animation_clip(AnimationState::Landing), (5, false));
    assert_eq!(animation_clip(AnimationState::Running), (2, true));
}

#[test]
fn dragging_captures_cursor() {
    let held = InputButtons { mouse_right_held: true, ..idle_buttons() };
    assert_eq!(drag_update(false, held), (true, CursorChange::Capture));
    assert_eq!(drag_update(true, held), (true, CursorChange::Keep));
    assert_eq!(drag_update(true, idle_buttons()), (false, CursorChange::Release));
    assert_eq!(drag_update(false, idle_buttons()), (false, CursorChange::Keep));
}

#[test]
fn movement_intent_from_buttons() {
    assert_eq!(movement_intent(idle_buttons()), (false, false, false));
    let both_mouse = InputButtons { mouse_left_held: true, mouse_right_held: true, ..idle_buttons() };
    assert_eq!(movement_intent(both_mouse), (true, false, false));
    let run = InputButtons { forward: true, up: true, ..idle_buttons() };
    assert_eq!(movement_intent(run), (true, true, false));
    let run_in_place = InputButtons { up: true, down: true, ..idle_buttons() };
    assert_eq!(movement_intent(run_in_place), (false, false, true));
}
