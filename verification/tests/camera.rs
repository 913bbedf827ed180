use gl_playground::camera::{Adjustment, Camera, Thrust};
use gl_playground::event::{Action, Key, WindowEvent};

#[test]
fn fresh_camera_is_at_rest_and_takes_no_step() {
    let camera = Camera::default();
    assert!(camera.is_at_rest());
    assert_eq!(camera.proccess_movement(), Vec::<Thrust>::new());
}

#[test]
fn keys_ask_for_movement_while_they_are_down() {
    let mut camera = Camera::default();
    assert_eq!(
        camera.proccess_event(&WindowEvent::Key(Key::W, Action::Press)),
        Adjustment::Nothing
    );
    assert!(!camera.is_at_rest());
    assert_eq!(camera.proccess_movement(), vec![Thrust::Forward]);
    camera.proccess_event(&WindowEvent::Key(Key::W, Action::Repeat));
    assert_eq!(camera.proccess_movement(), vec![Thrust::Forward]);
    camera.proccess_event(&WindowEvent::Key(Key::W, Action::Release));
    assert!(camera.is_at_rest());
    assert_eq!(camera.proccess_movement(), Vec::<Thrust>::new());
}

#[test]
fn each_key_has_its_direction() {
    let mut camera = Camera::default();
    camera.proccess_event(&WindowEvent::Key(Key::S, Action::Press));
    assert_eq!(camera.proccess_movement(), vec![Thrust::Backward]);
    camera.proccess_event(&WindowEvent::Key(Key::S, Action::Release));
    camera.proccess_event(&WindowEvent::Key(Key::A, Action::Press));
    assert_eq!(camera.proccess_movement(), vec![Thrust::Left]);
    camera.proccess_event(&WindowEvent::Key(Key::A, Action::Release));
    camera.proccess_event(&WindowEvent::Key(Key::D, Action::Repeat));
    assert_eq!(camera.proccess_movement(), vec![Thrust::Right]);
}

#[test]
fn steps_come_forward_backward_right_left() {
    let mut camera = Camera::default();
    camera.proccess_event(&WindowEvent::Key(Key::A, Action::Press));
    camera.proccess_event(&WindowEvent::Key(Key::D, Action::Press));
    camera.proccess_event(&WindowEvent::Key(Key::S, Action::Press));
    camera.proccess_event(&WindowEvent::Key(Key::W, Action::Press));
    assert_eq!(
        camera.proccess_movement(),
        vec![Thrust::Forward, Thrust::Backward, Thrust::Right, Thrust::Left]
    );
    camera.proccess_event(&WindowEvent::Key(Key::S, Action::Release));
    assert_eq!(camera.proccess_movement(), vec![Thrust::Forward, Thrust::Right, Thrust::Left]);
}

#[test]
fn other_keys_and_events_leave_the_movement_alone() {
    let mut camera = Camera::default();
    camera.proccess_event(&WindowEvent::Key(Key::W, Action::Press));
    let before = camera;
    camera.proccess_event(&WindowEvent::Key(Key::Escape, Action::Press));
    camera.proccess_event(&WindowEvent::Key(Key::Other, Action::Press));
    camera.proccess_event(&WindowEvent::FramebufferSize(10, 10));
    camera.proccess_event(&WindowEvent::Scroll);
    camera.proccess_event(&WindowEvent::Close);
    camera.proccess_event(&WindowEvent::Other);
    assert_eq!(camera, before);
    assert_eq!(camera.proccess_movement(), vec![Thrust::Forward]);
}

#[test]
fn only_the_first_cursor_event_is_the_first() {
    let mut camera = Camera::default();
    assert_eq!(camera.proccess_event(&WindowEvent::CursorPos), Adjustment::Look { first: true });
    assert_eq!(camera.proccess_event(&WindowEvent::CursorPos), Adjustment::Look { first: false });
    camera.proccess_event(&WindowEvent::Key(Key::W, Action::Press));
    assert_eq!(camera.proccess_event(&WindowEvent::CursorPos), Adjustment::Look { first: false });
    assert!(!camera.is_at_rest());
}

#[test]
fn scroll_asks_for_a_zoom() {
    let mut camera = Camera::default();
    assert_eq!(camera.proccess_event(&WindowEvent::Scroll), Adjustment::Zoom);
    assert_eq!(camera.proccess_event(&WindowEvent::CursorPos), Adjustment::Look { first: true });
}

#[test]
fn pressed_means_press_or_repeat() {
    assert!(Action::Press.pressed());
    assert!(Action::Repeat.pressed());
    assert!(!Action::Release.pressed());
}
