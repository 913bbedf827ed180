//! The main loop's decisions: whether it goes on, and what the events of one
//! frame ask of the camera and of the driver.

use crate::camera::{Adjustment, Camera, CameraView};
use crate::command::{views, Command, CommandView};
use crate::event::{Action, Key, WindowEvent};
use vstd::prelude::*;

verus! {

/// The two states of the main loop.
#[derive(Clone, Copy, Debug, PartialEq, Eq, Structural)]
pub enum LoopState {
    /// Frames are drawn.
    Running,
    /// The frame that is being drawn is the last one.
    Closing,
}

/// Whether the event ends the loop: the escape key going down, or a request
/// to close the window.
pub open spec fn closes(event: WindowEvent) -> bool {
    event == WindowEvent::Key(Key::Escape, Action::Press) || event is Close
}

/// The state of the loop after an event. A loop that is closing stays so.
pub open spec fn state_after(state: LoopState, event: WindowEvent) -> LoopState {
    if state is Closing || closes(event) {
        LoopState::Closing
    } else {
        LoopState::Running
    }
}

/// The command that an event asks of the driver: a viewport as large as the
/// new framebuffer.
pub open spec fn viewport(event: WindowEvent) -> Seq<CommandView> {
    match event {
        WindowEvent::FramebufferSize(width, height) => seq![
            CommandView::Viewport { size: (width, height) },
        ],
        _ => Seq::empty(),
    }
}

/// The state of the loop after a run of events.
pub open spec fn state_after_all(state: LoopState, events: Seq<WindowEvent>) -> LoopState
    decreases events.len(),
{
    if events.len() == 0 {
        state
    } else {
        state_after(state_after_all(state, events.drop_last()), events.last())
    }
}

/// The camera after a run of events.
pub open spec fn camera_after_all(camera: CameraView, events: Seq<WindowEvent>) -> CameraView
    decreases events.len(),
{
    if events.len() == 0 {
        camera
    } else {
        camera_after_all(camera, events.drop_last()).after(events.last())
    }
}

/// What a run of events asks of the camera's numbers, one answer an event:
/// each event is put to the camera as the events before it have left it.
pub open spec fn adjustments(camera: CameraView, events: Seq<WindowEvent>) -> Seq<Adjustment> {
    Seq::new(
        events.len(),
        |i: int| camera_after_all(camera, events.take(i)).adjustment(events[i]),
    )
}

/// The commands that a run of events asks of the driver, in order.
pub open spec fn viewports(events: Seq<WindowEvent>) -> Seq<CommandView>
    decreases events.len(),
{
    if events.len() == 0 {
        Seq::empty()
    } else {
        viewports(events.drop_last()) + viewport(events.last())
    }
}

/// What one event has come to.
#[derive(Debug, PartialEq, Eq)]
pub struct Handled {
    /// The state of the loop after the event.
    pub state: LoopState,
    /// What the event asks of the camera's numbers.
    pub adjustment: Adjustment,
    /// What the event asks of the driver.
    pub commands: Vec<Command>,
}

/// What the events of one frame have come to.
#[derive(Debug, PartialEq, Eq)]
pub struct Frame {
    /// The state of the loop after the events.
    pub state: LoopState,
    /// What each event asks of the camera's numbers, one answer an event.
    pub adjustments: Vec<Adjustment>,
    /// What the events ask of the driver, in order.
    pub commands: Vec<Command>,
}

/// Handles one event: the camera takes it, the escape key going down or a
/// close request ends the loop, and a new framebuffer size asks for a
/// viewport of that size.
pub fn handle_event(state: LoopState, camera: &mut Camera, event: &WindowEvent) -> (handled:
    Handled)
    ensures
        final(camera)@ == old(camera)@.after(*event),
        handled.state == state_after(state, *event),
        handled.adjustment == old(camera)@.adjustment(*event),
        views(handled.commands@) == viewport(*event),
{
    let adjustment = camera.proccess_event(event);
    let mut commands: Vec<Command> = Vec::new();
    let mut next = state;
    match *event {
        WindowEvent::Key(Key::Escape, Action::Press) => {
            next = LoopState::Closing;
        },
        WindowEvent::Close => {
            next = LoopState::Closing;
        },
        WindowEvent::FramebufferSize(width, height) => {
            commands.push(Command::Viewport { size: (width, height) });
        },
        _ => {},
    }
    assert(views(commands@) =~= viewport(*event));
    Handled { state: next, adjustment, commands }
}

/// Handles the events of one frame, in order. Events that follow the one that
/// ends the loop are handled like any other.
pub fn handle_events(state: LoopState, camera: &mut Camera, events: &Vec<WindowEvent>) -> (frame:
    Frame)
    ensures
        final(camera)@ == camera_after_all(old(camera)@, events@),
        frame.state == state_after_all(state, events@),
        frame.adjustments@ == adjustments(old(camera)@, events@),
        views(frame.commands@) == viewports(events@),
{
    let ghost start = camera@;
    let mut next = state;
    let mut answers: Vec<Adjustment> = Vec::new();
    let mut commands: Vec<Command> = Vec::new();
    let mut i: usize = 0;
    assert(events@.take(0) =~= Seq::<WindowEvent>::empty());
    assert(views(commands@) =~= viewports(events@.take(0)));
    while i < events.len()
        invariant
            i <= events.len(),
            camera@ == camera_after_all(start, events@.take(i as int)),
            next == state_after_all(state, events@.take(i as int)),
            answers@.len() == i,
            forall|k: int|
                0 <= k < i ==> answers@[k] == camera_after_all(
                    start,
                    events@.take(k),
                ).adjustment(#[trigger] events@[k]),
            views(commands@) == viewports(events@.take(i as int)),
        decreases events.len() - i,
    {
        let ghost before = commands@;
        let handled = handle_event(next, camera, &events[i]);
        let Handled { state: after, adjustment, commands: mut asked } = handled;
        let ghost asked_before = asked@;
        next = after;
        answers.push(adjustment);
        commands.append(&mut asked);
        proof {
            let upto = events@.take(i as int + 1);
            assert(upto.drop_last() =~= events@.take(i as int));
            assert(upto.last() == events@[i as int]);
            assert(commands@ =~= before + asked_before);
            assert(views(commands@) =~= views(before) + views(asked_before));
        }
        i += 1;
    }
    assert(events@.take(i as int) =~= events@);
    assert(answers@ =~= adjustments(start, events@));
    Frame { state: next, adjustments: answers, commands }
}

/// Once the loop is closing, no run of events brings it back to running.
pub proof fn closing_is_final(events: Seq<WindowEvent>)
    ensures
        state_after_all(LoopState::Closing, events) == LoopState::Closing,
    decreases events.len(),
{
    if events.len() > 0 {
        closing_is_final(events.drop_last());
    }
}

/// A running loop is still running after a run of events exactly when none of
/// them is the escape key going down or a close request.
pub proof fn running_until_asked_to_close(events: Seq<WindowEvent>)
    ensures
        state_after_all(LoopState::Running, events) is Running <==> forall|i: int|
            0 <= i < events.len() ==> !closes(#[trigger] events[i]),
    decreases events.len(),
{
    if events.len() > 0 {
        let front = events.drop_last();
        running_until_asked_to_close(front);
        if state_after_all(LoopState::Running, events) is Running {
            assert forall|i: int| 0 <= i < events.len() implies !closes(#[trigger] events[i]) by {
                if i < front.len() {
                    assert(front[i] == events[i]);
                }
            }
        } else {
            if state_after_all(LoopState::Running, front) is Running {
                assert(closes(events[events.len() - 1]));
            } else {
                let i = choose|i: int| 0 <= i < front.len() && closes(#[trigger] front[i]);
                assert(closes(events[i]));
            }
        }
    }
}

} // verus!
