//! What the player's buttons mean: mouse dragging (which captures the
//! cursor) and the movement the held keys ask for.
use vstd::prelude::*;

verus! {

/// The buttons held or pressed in a frame.
#[derive(Debug, Clone, Copy, PartialEq, Eq, Structural)]
pub struct InputButtons {
    pub forward: bool,
    pub backward: bool,
    pub left: bool,
    pub right: bool,
    /// Run modifier.
    pub up: bool,
    /// Jump.
    pub down: bool,
    pub mouse_left_held: bool,
    pub mouse_right_held: bool,
}

/// What happens to the cursor when dragging starts or stops.
#[derive(Debug, Clone, Copy, PartialEq, Eq, Structural)]
pub enum CursorChange {
    /// Dragging started: hide and lock the cursor.
    Capture,
    /// Dragging stopped: show and release the cursor.
    Release,
    /// Nothing changes.
    Keep,
}

/// The player drags the camera while either mouse button is held.
pub open spec fn is_dragging(buttons: InputButtons) -> bool {
    buttons.mouse_left_held || buttons.mouse_right_held
}

/// The cursor is captured when dragging starts and released when it stops.
pub open spec fn cursor_change(was_dragging: bool, buttons: InputButtons) -> CursorChange {
    if is_dragging(buttons) && !was_dragging {
        CursorChange::Capture
    } else if !is_dragging(buttons) && was_dragging {
        CursorChange::Release
    } else {
        CursorChange::Keep
    }
}

/// Whether the player drags the camera this frame, and what happens to the
/// cursor given whether the player dragged before. Mouse motion turns the
/// camera only while dragging.
pub fn drag_update(was_dragging: bool, buttons: InputButtons) -> (update: (bool, CursorChange))
    ensures
        update.0 == is_dragging(buttons),
        update.1 == cursor_change(was_dragging, buttons),
{
    let is_dragging = buttons.mouse_left_held || buttons.mouse_right_held;
    let change = if is_dragging && !was_dragging {
        CursorChange::Capture
    } else if !is_dragging && was_dragging {
        CursorChange::Release
    } else {
        CursorChange::Keep
    };
    (is_dragging, change)
}

/// The player drags exactly while the left or the right mouse button is
/// held: holding either one alone starts a drag and captures the cursor,
/// releasing both stops it and releases the cursor, and otherwise the
/// cursor is left as it is.
pub proof fn lemma_drag_follows_mouse_buttons(was_dragging: bool, buttons: InputButtons)
    ensures
        is_dragging(buttons) <==> (buttons.mouse_left_held || buttons.mouse_right_held),
        (cursor_change(was_dragging, buttons) == CursorChange::Capture) <==> (!was_dragging && (
        buttons.mouse_left_held || buttons.mouse_right_held)),
        (cursor_change(was_dragging, buttons) == CursorChange::Release) <==> (was_dragging
            && !buttons.mouse_left_held && !buttons.mouse_right_held),
        (cursor_change(was_dragging, buttons) == CursorChange::Keep) <==> (was_dragging == (
        buttons.mouse_left_held || buttons.mouse_right_held)),
{
}

/// The movement the buttons ask for, as (moving, running, jumping): moving
/// with any direction key or with both mouse buttons held; running when
/// moving with the run modifier; jumping with the jump key.
pub fn movement_intent(buttons: InputButtons) -> (intent: (bool, bool, bool))
    ensures
        intent.0 == (buttons.forward || buttons.backward || buttons.left || buttons.right || (
        buttons.mouse_left_held && buttons.mouse_right_held)),
        intent.1 == (intent.0 && buttons.up),
        intent.2 == buttons.down,
{
    let is_moving = buttons.forward || buttons.backward || buttons.left || buttons.right || (
    buttons.mouse_left_held && buttons.mouse_right_held);
    let is_running = is_moving && buttons.up;
    (is_moving, is_running, buttons.down)
}

/// Whether the cursor is captured after `change`, given whether it was.
pub open spec fn captured_after(captured: bool, change: CursorChange) -> bool {
    match change {
        CursorChange::Capture => true,
        CursorChange::Release => false,
        CursorChange::Keep => captured,
    }
}

/// The cursor is captured exactly while the player drags: if it was captured
/// exactly when the player dragged before the frame, it is captured exactly
/// when the player drags after it.
pub proof fn lemma_cursor_captured_while_dragging(was_dragging: bool, buttons: InputButtons)
    ensures
        captured_after(was_dragging, cursor_change(was_dragging, buttons)) == is_dragging(buttons),
{
}

} // verus!
