//! Mouse-button routing.
//!
//! The input collaborator supplies raw button edges; this state machine
//! routes them.  With no drag in flight, holding the right button pans
//! the camera.  While a placement drag is in flight, a right click asks
//! to cancel it and a left click asks to drop it; confirming either
//! returns the mouse to its default state.

use vstd::prelude::*;

verus! {

/// What the mouse is currently doing.
#[derive(Clone, Copy, PartialEq, Eq, Structural, Debug)]
pub enum MouseState {
    Default,
    CameraMovement,
    Dragging,
}

/// The raw button edges of one tick.
#[derive(Clone, Copy, PartialEq, Eq, Structural, Debug)]
pub struct ButtonInput {
    /// The right button is held down.
    pub right_pressed: bool,
    /// The right button went down this tick.
    pub right_just_pressed: bool,
    /// The left button went down this tick.
    pub left_just_pressed: bool,
}

/// What the routing asks the rest of the game to do.
#[derive(Clone, Copy, PartialEq, Eq, Structural, Debug)]
pub enum MouseAction {
    /// Nothing this tick.
    Idle,
    /// Camera panning begins: hide and grab the cursor.
    GrabCamera,
    /// Camera panning ends: release the cursor.
    ReleaseCamera,
    /// Ask every drag in flight to cancel.
    RequestDragCancel,
    /// Ask every drag in flight to drop.
    RequestDragDrop,
}

/// Where one tick's button edges take the mouse, and what they ask for.
pub open spec fn spec_mouse_step(s: MouseState, b: ButtonInput) -> (MouseState, MouseAction) {
    match s {
        MouseState::Default => if b.right_pressed {
            (MouseState::CameraMovement, MouseAction::GrabCamera)
        } else {
            (MouseState::Default, MouseAction::Idle)
        },
        MouseState::CameraMovement => if !b.right_pressed {
            (MouseState::Default, MouseAction::ReleaseCamera)
        } else {
            (MouseState::CameraMovement, MouseAction::Idle)
        },
        MouseState::Dragging => if b.right_just_pressed {
            (MouseState::Dragging, MouseAction::RequestDragCancel)
        } else if b.left_just_pressed {
            (MouseState::Dragging, MouseAction::RequestDragDrop)
        } else {
            (MouseState::Dragging, MouseAction::Idle)
        },
    }
}

/// Route one tick's button edges: camera panning holds the right button
/// from the default state, while a drag in flight turns right clicks
/// into cancel requests and left clicks into drop requests.
pub fn mouse_buttons_step(s: MouseState, b: ButtonInput) -> (r: (MouseState, MouseAction))
    ensures
        r == spec_mouse_step(s, b),
{
    match s {
        MouseState::Default => {
            if b.right_pressed {
                (MouseState::CameraMovement, MouseAction::GrabCamera)
            } else {
                (MouseState::Default, MouseAction::Idle)
            }
        },
        MouseState::CameraMovement => {
            if !b.right_pressed {
                (MouseState::Default, MouseAction::ReleaseCamera)
            } else {
                (MouseState::CameraMovement, MouseAction::Idle)
            }
        },
        MouseState::Dragging => {
            if b.right_just_pressed {
                (MouseState::Dragging, MouseAction::RequestDragCancel)
            } else if b.left_just_pressed {
                (MouseState::Dragging, MouseAction::RequestDragDrop)
            } else {
                (MouseState::Dragging, MouseAction::Idle)
            }
        },
    }
}

/// A new drag took hold of the mouse.
pub fn mouse_on_drag_started(_s: MouseState) -> (r: MouseState)
    ensures
        r == MouseState::Dragging,
{
    MouseState::Dragging
}

/// A drag confirmed its drop or cancel and despawned: the mouse returns
/// to its default state.
pub fn mouse_on_drag_finished(_s: MouseState) -> (r: MouseState)
    ensures
        r == MouseState::Default,
{
    MouseState::Default
}

} // verus!
