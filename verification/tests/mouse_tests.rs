use robo_swarm::mouse::{
    mouse_buttons_step, mouse_on_drag_finished, mouse_on_drag_started, ButtonInput, MouseAction,
    MouseState,
};

fn buttons(right_pressed: bool, right_just: bool, left_just: bool) -> ButtonInput {
    ButtonInput {
        right_pressed,
        right_just_pressed: right_just,
        left_just_pressed: left_just,
    }
}

#[test]
fn right_button_pans_the_camera_from_default() {
    let (s, a) = mouse_buttons_step(MouseState::Default, buttons(true, true, false));
    assert_eq!(s, MouseState::CameraMovement);
    assert_eq!(a, MouseAction::GrabCamera);

    let (s, a) = mouse_buttons_step(s, buttons(true, false, false));
    assert_eq!(s, MouseState::CameraMovement);
    assert_eq!(a, MouseAction::Idle);

    let (s, a) = mouse_buttons_step(s, buttons(false, false, false));
    assert_eq!(s, MouseState::Default);
    assert_eq!(a, MouseAction::ReleaseCamera);
}

#[test]
fn clicks_while_dragging_become_drag_requests() {
    let s = mouse_on_drag_started(MouseState::Default);
    assert_eq!(s, MouseState::Dragging);

    let (s, a) = mouse_buttons_step(s, buttons(true, true, false));
    assert_eq!(s, MouseState::Dragging);
    assert_eq!(a, MouseAction::RequestDragCancel);

    let (s, a) = mouse_buttons_step(s, buttons(false, false, true));
    assert_eq!(s, MouseState::Dragging);
    assert_eq!(a, MouseAction::RequestDragDrop);

    // A right click outranks a left click in the same tick.
    let (_, a) = mouse_buttons_step(s, buttons(true, true, true));
    assert_eq!(a, MouseAction::RequestDragCancel);

    let s = mouse_on_drag_finished(s);
    assert_eq!(s, MouseState::Default);
}

#[test]
fn idle_buttons_change_nothing() {
    let (s, a) = mouse_buttons_step(MouseState::Default, buttons(false, false, false));
    assert_eq!(s, MouseState::Default);
    assert_eq!(a, MouseAction::Idle);
    let (s, a) = mouse_buttons_step(MouseState::Dragging, buttons(false, false, false));
    assert_eq!(s, MouseState::Dragging);
    assert_eq!(a, MouseAction::Idle);
}
