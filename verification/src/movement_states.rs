//! The discrete states of character movement and animation: which movement
//! behaviour applies in each state, how ground movement changes state, which
//! animation each state shows, and how each animation clip is played.
use vstd::prelude::*;

verus! {

/// The movement state of the character controller.
#[derive(Debug, Clone, Copy, PartialEq, Eq, Structural)]
pub enum MovementState {
    Idle,
    Walking,
    Running,
    Sliding,
    SteppingUp,
    Falling,
    Landing,
    Jumping,
}

/// The animation shown for the character.
#[derive(Debug, Clone, Copy, PartialEq, Eq, Structural)]
pub enum AnimationState {
    Idle,
    Walking,
    Running,
    Jumping,
    Falling,
    Landing,
}

/// The movement behaviour that moves the character in a frame.
#[derive(Debug, Clone, Copy, PartialEq, Eq, Structural)]
pub enum MovementBehaviorKind {
    /// Accelerate and decelerate on the ground.
    Ground,
    /// Limited air control under gravity.
    Air,
    /// Slide down a steep slope.
    Sliding,
    /// No movement (stepping up, landing).
    Still,
}

/// The behaviour that applies in `state`: on foot the ground behaviour when
/// grounded and the air behaviour otherwise; sliding; the air behaviour
/// while jumping or falling; none while stepping up or landing.
pub open spec fn behavior_for(state: MovementState, is_grounded: bool) -> MovementBehaviorKind {
    match state {
        MovementState::Walking | MovementState::Running | MovementState::Idle => if is_grounded {
            MovementBehaviorKind::Ground
        } else {
            MovementBehaviorKind::Air
        },
        MovementState::Sliding => MovementBehaviorKind::Sliding,
        MovementState::Jumping | MovementState::Falling => MovementBehaviorKind::Air,
        MovementState::SteppingUp | MovementState::Landing => MovementBehaviorKind::Still,
    }
}

/// The movement behaviour to run for the controller's state.
pub fn movement_behavior(state: MovementState, is_grounded: bool) -> (kind: MovementBehaviorKind)
    ensures
        kind == behavior_for(state, is_grounded),
{
    match state {
        MovementState::Walking | MovementState::Running | MovementState::Idle => {
            if is_grounded {
                MovementBehaviorKind::Ground
            } else {
                MovementBehaviorKind::Air
            }
        },
        MovementState::Sliding => MovementBehaviorKind::Sliding,
        MovementState::Jumping | MovementState::Falling => MovementBehaviorKind::Air,
        MovementState::SteppingUp | MovementState::Landing => MovementBehaviorKind::Still,
    }
}

/// The state after a frame of ground movement: idle, walking and running
/// follow the target speed (`moving`: above the standing threshold,
/// `running`: above one and a half walking speeds); the other states are
/// left to the jump, fall, slide and step logic.
pub fn update_movement_state(current: MovementState, moving: bool, running: bool) -> (next:
    MovementState)
    ensures
        next == match current {
            MovementState::Idle | MovementState::Walking | MovementState::Running => if moving {
                if running {
                    MovementState::Running
                } else {
                    MovementState::Walking
                }
            } else {
                MovementState::Idle
            },
            _ => current,
        },
{
    match current {
        MovementState::Idle | MovementState::Walking | MovementState::Running => {
            if moving {
                if running {
                    MovementState::Running
                } else {
                    MovementState::Walking
                }
            } else {
                MovementState::Idle
            }
        },
        _ => current,
    }
}

/// The animation for a movement state: sliding and stepping up show the
/// walking animation, every other state its own.
pub open spec fn animation_for(state: MovementState) -> AnimationState {
    match state {
        MovementState::Idle => AnimationState::Idle,
        MovementState::Walking => AnimationState::Walking,
        MovementState::Running => AnimationState::Running,
        MovementState::Jumping => AnimationState::Jumping,
        MovementState::Falling => AnimationState::Falling,
        MovementState::Landing => AnimationState::Landing,
        MovementState::Sliding => AnimationState::Walking,
        MovementState::SteppingUp => AnimationState::Walking,
    }
}

impl From<MovementState> for AnimationState {
    fn from(movement_state: MovementState) -> (animation: Self) {
        match movement_state {
            MovementState::Idle => AnimationState::Idle,
            MovementState::Walking => AnimationState::Walking,
            MovementState::Running => AnimationState::Running,
            MovementState::Jumping => AnimationState::Jumping,
            MovementState::Falling => AnimationState::Falling,
            MovementState::Landing => AnimationState::Landing,
            MovementState::Sliding => AnimationState::Walking,
            MovementState::SteppingUp => AnimationState::Walking,
        }
    }
}

impl vstd::std_specs::convert::FromSpecImpl<MovementState> for AnimationState {
    open spec fn obeys_from_spec() -> bool {
        true
    }

    open spec fn from_spec(movement_state: MovementState) -> Self {
        animation_for(movement_state)
    }
}

/// How an animation is played: the slot of its clip among the character's
/// animation nodes (idle, walk, run, jump, fall, land) and whether it loops.
pub fn animation_clip(state: AnimationState) -> (clip: (usize, bool))
    ensures
        clip == match state {
            AnimationState::Idle => (0usize, true),
            AnimationState::Walking => (1usize, true),
            AnimationState::Running => (2usize, true),
            AnimationState::Jumping => (3usize, false),
            AnimationState::Falling => (4usize, true),
            AnimationState::Landing => (5usize, false),
        },
{
    match state {
        AnimationState::Idle => (0, true),
        AnimationState::Walking => (1, true),
        AnimationState::Running => (2, true),
        AnimationState::Jumping => (3, false),
        AnimationState::Falling => (4, true),
        AnimationState::Landing => (5, false),
    }
}

/// Which behaviour moves the character: every airborne state (jumping,
/// falling) and every on-foot state off the ground uses the air behaviour;
/// the ground behaviour runs exactly on foot and grounded; sliding exactly
/// while sliding; the character stands still exactly while stepping up or
/// landing.
pub proof fn lemma_movement_behavior_by_state(state: MovementState, is_grounded: bool)
    ensures
        (state == MovementState::Jumping || state == MovementState::Falling) ==> behavior_for(
            state,
            is_grounded,
        ) == MovementBehaviorKind::Air,
        (behavior_for(state, is_grounded) == MovementBehaviorKind::Air) <==> (state
            == MovementState::Jumping || state == MovementState::Falling || (!is_grounded && (state
            == MovementState::Idle || state == MovementState::Walking || state
            == MovementState::Running))),
        (behavior_for(state, is_grounded) == MovementBehaviorKind::Ground) <==> (is_grounded && (
        state == MovementState::Idle || state == MovementState::Walking || state
            == MovementState::Running)),
        (behavior_for(state, is_grounded) == MovementBehaviorKind::Sliding) <==> state
            == MovementState::Sliding,
        (behavior_for(state, is_grounded) == MovementBehaviorKind::Still) <==> (state
            == MovementState::SteppingUp || state == MovementState::Landing),
{
}

} // verus!
