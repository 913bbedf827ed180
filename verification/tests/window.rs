use gl_playground::camera::{Adjustment, Camera, Thrust};
use gl_playground::command::Command;
use gl_playground::event::{Action, Key, WindowEvent};
use gl_playground::window::{handle_event, handle_events, LoopState};

#[test]
fn escape_going_down_ends_the_loop() {
    let mut camera = Camera::default();
    let handled =
        handle_event(LoopState::Running, &mut camera, &WindowEvent::Key(Key::Escape, Action::Press));
    assert_eq!(handled.state, LoopState::Closing);
    assert_eq!(handled.adjustment, Adjustment::Nothing);
    assert_eq!(handled.commands, Vec::<Command>::new());
}

#[test]
fn escape_held_or_released_does_not_end_the_loop() {
    let mut camera = Camera::default();
    let handled = handle_event(
        LoopState::Running,
        &mut camera,
        &WindowEvent::Key(Key::Escape, Action::Repeat),
    );
    assert_eq!(handled.state, LoopState::Running);
    let handled = handle_event(
        LoopState::Running,
        &mut camera,
        &WindowEvent::Key(Key::Escape, Action::Release),
    );
    assert_eq!(handled.state, LoopState::Running);
}

#[test]
fn close_request_ends_the_loop() {
    let mut camera = Camera::default();
    let handled = handle_event(LoopState::Running, &mut camera, &WindowEvent::Close);
    assert_eq!(handled.state, LoopState::Closing);
}

#[test]
fn closing_loop_stays_closing() {
    let mut camera = Camera::default();
    let handled =
        handle_event(LoopState::Closing, &mut camera, &WindowEvent::Key(Key::W, Action::Press));
    assert_eq!(handled.state, LoopState::Closing);
    assert_eq!(camera.proccess_movement(), vec![Thrust::Forward]);
    let frame = handle_events(
        LoopState::Closing,
        &mut camera,
        &vec![WindowEvent::Other, WindowEvent::CursorPos, WindowEvent::Scroll],
    );
    assert_eq!(frame.state, LoopState::Closing);
}

#[test]
fn new_framebuffer_size_asks_for_a_viewport() {
    let mut camera = Camera::default();
    let handled =
        handle_event(LoopState::Running, &mut camera, &WindowEvent::FramebufferSize(640, 480));
    assert_eq!(handled.state, LoopState::Running);
    assert_eq!(handled.commands, vec![Command::Viewport { size: (640, 480) }]);
}

#[test]
fn events_of_a_frame_are_handled_in_order() {
    let mut camera = Camera::default();
    let events = vec![
        WindowEvent::CursorPos,
        WindowEvent::Key(Key::W, Action::Press),
        WindowEvent::FramebufferSize(800, 600),
        WindowEvent::Key(Key::Escape, Action::Press),
        WindowEvent::CursorPos,
        WindowEvent::Key(Key::D, Action::Press),
        WindowEvent::Scroll,
        WindowEvent::FramebufferSize(1280, 720),
        WindowEvent::Key(Key::W, Action::Release),
    ];
    let frame = handle_events(LoopState::Running, &mut camera, &events);
    assert_eq!(frame.state, LoopState::Closing);
    assert_eq!(
        frame.adjustments,
        vec![
            Adjustment::Look { first: true },
            Adjustment::Nothing,
            Adjustment::Nothing,
            Adjustment::Nothing,
            Adjustment::Look { first: false },
            Adjustment::Nothing,
            Adjustment::Zoom,
            Adjustment::Nothing,
            Adjustment::Nothing,
        ]
    );
    assert_eq!(
        frame.commands,
        vec![Command::Viewport { size: (800, 600) }, Command::Viewport { size: (1280, 720) }]
    );
    assert_eq!(camera.proccess_movement(), vec![Thrust::Right]);
}

#[test]
fn frame_without_events_changes_nothing() {
    let mut camera = Camera::default();
    let frame = handle_events(LoopState::Running, &mut camera, &Vec::new());
    assert_eq!(frame.state, LoopState::Running);
    assert_eq!(frame.adjustments, Vec::<Adjustment>::new());
    assert_eq!(frame.commands, Vec::<Command>::new());
    assert_eq!(camera, Camera::default());
}

#[test]
fn frame_of_harmless_events_keeps_running() {
    let mut camera = Camera::default();
    let events = vec![
        WindowEvent::Key(Key::Escape, Action::Release),
        WindowEvent::Key(Key::Other, Action::Press),
        WindowEvent::Other,
    ];
    let frame = handle_events(LoopState::Running, &mut camera, &events);
    assert_eq!(frame.state, LoopState::Running);
}
