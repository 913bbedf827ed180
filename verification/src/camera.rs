//! The deciding side of a first-person camera: which way it is asked to move,
//! and what an event asks of its position and angles.
//!
//! The numbers (position, angles, matrices) stay with the driver. The camera
//! here keeps the intent, and tells the driver which steps to take with them.

use crate::event::{Action, Key, WindowEvent};
use vstd::prelude::*;

verus! {

/// One step of a movement, along an axis of the camera.
#[derive(Clone, Copy, Debug, PartialEq, Eq, Structural)]
pub enum Thrust {
    /// Along the view direction.
    Forward,
    /// Against the view direction.
    Backward,
    /// To the right of the view direction.
    Right,
    /// To the left of the view direction.
    Left,
}

/// What an event asks of the camera's numbers.
#[derive(Clone, Copy, Debug, PartialEq, Eq, Structural)]
pub enum Adjustment {
    /// Nothing.
    Nothing,
    /// Turn by the distance that the cursor has moved since the last cursor
    /// position. With `first`, the cursor has no last position yet: its new
    /// position is taken as the last one before the distance is measured, so
    /// the camera does not turn.
    Look { first: bool },
    /// Change the field of view by the distance that the wheel has turned.
    Zoom,
}

/// The mathematical value of a [`Camera`].
pub struct CameraView {
    pub forward: bool,
    pub backward: bool,
    pub left: bool,
    pub right: bool,
    pub first_click: bool,
}

impl CameraView {
    /// A camera that is asked for no movement and has seen no cursor yet.
    pub open spec fn fresh() -> CameraView {
        CameraView { forward: false, backward: false, left: false, right: false, first_click: true }
    }

    /// No movement is asked for.
    pub open spec fn at_rest(self) -> bool {
        !self.forward && !self.backward && !self.left && !self.right
    }

    /// The steps of one update, in the order in which they are taken: forward,
    /// backward, right, left, each where it is asked for.
    pub open spec fn thrusts(self) -> Seq<Thrust> {
        (if self.forward {
            seq![Thrust::Forward]
        } else {
            Seq::empty()
        }) + (if self.backward {
            seq![Thrust::Backward]
        } else {
            Seq::empty()
        }) + (if self.right {
            seq![Thrust::Right]
        } else {
            Seq::empty()
        }) + (if self.left {
            seq![Thrust::Left]
        } else {
            Seq::empty()
        })
    }

    /// The camera after a key event: W, S, A and D ask for movement forward,
    /// backward, to the left and to the right while they are down.
    pub open spec fn after_key(self, key: Key, action: Action) -> CameraView {
        match key {
            Key::W => CameraView { forward: action.is_down(), ..self },
            Key::S => CameraView { backward: action.is_down(), ..self },
            Key::A => CameraView { left: action.is_down(), ..self },
            Key::D => CameraView { right: action.is_down(), ..self },
            _ => self,
        }
    }

    /// The camera after an event.
    pub open spec fn after(self, event: WindowEvent) -> CameraView {
        match event {
            WindowEvent::Key(key, action) => self.after_key(key, action),
            WindowEvent::CursorPos => CameraView { first_click: false, ..self },
            _ => self,
        }
    }

    /// What an event asks of the camera's numbers.
    pub open spec fn adjustment(self, event: WindowEvent) -> Adjustment {
        match event {
            WindowEvent::CursorPos => Adjustment::Look { first: self.first_click },
            WindowEvent::Scroll => Adjustment::Zoom,
            _ => Adjustment::Nothing,
        }
    }
}

/// The intent of a first-person camera.
#[derive(Clone, Copy, Debug, PartialEq, Eq)]
pub struct Camera {
    forward: bool,
    backward: bool,
    left_movement: bool,
    right_movement: bool,
    first_click: bool,
}

impl View for Camera {
    type V = CameraView;

    closed spec fn view(&self) -> CameraView {
        CameraView {
            forward: self.forward,
            backward: self.backward,
            left: self.left_movement,
            right: self.right_movement,
            first_click: self.first_click,
        }
    }
}

impl Default for Camera {
    /// A camera that is asked for no movement and has seen no cursor yet.
    fn default() -> (camera: Camera)
        ensures
            camera@ == CameraView::fresh(),
    {
        Camera {
            forward: false,
            backward: false,
            left_movement: false,
            right_movement: false,
            first_click: true,
        }
    }
}

impl Camera {
    /// The steps that one update takes, in order; each is as long as the time
    /// since the last update times the camera's speed. A camera at rest takes
    /// none, so its position stays where it is.
    pub fn proccess_movement(&self) -> (steps: Vec<Thrust>)
        ensures
            steps@ == self@.thrusts(),
            self@.at_rest() <==> steps@.len() == 0,
    {
        let mut steps: Vec<Thrust> = Vec::new();
        if self.forward {
            steps.push(Thrust::Forward);
        }
        if self.backward {
            steps.push(Thrust::Backward);
        }
        if self.right_movement {
            steps.push(Thrust::Right);
        }
        if self.left_movement {
            steps.push(Thrust::Left);
        }
        assert(steps@ =~= self@.thrusts());
        steps
    }

    /// Takes an event of the window, and says what it asks of the camera's
    /// numbers.
    ///
    /// A key event changes the movement that is asked for, and nothing else.
    /// A cursor event asks for a turn; the first of them only sets the
    /// cursor's last position. A scroll event asks for a zoom.
    pub fn proccess_event(&mut self, event: &WindowEvent) -> (adjustment: Adjustment)
        ensures
            final(self)@ == old(self)@.after(*event),
            adjustment == old(self)@.adjustment(*event),
    {
        match *event {
            WindowEvent::Key(key, action) => {
                let pressed = action.pressed();
                match key {
                    Key::W => {
                        self.forward = pressed;
                    },
                    Key::S => {
                        self.backward = pressed;
                    },
                    Key::A => {
                        self.left_movement = pressed;
                    },
                    Key::D => {
                        self.right_movement = pressed;
                    },
                    _ => {},
                }
                Adjustment::Nothing
            },
            WindowEvent::CursorPos => {
                let first = self.first_click;
                self.first_click = false;
                Adjustment::Look { first }
            },
            WindowEvent::Scroll => Adjustment::Zoom,
            _ => Adjustment::Nothing,
        }
    }

    /// Whether no movement is asked for.
    pub fn is_at_rest(&self) -> (rest: bool)
        ensures
            rest == self@.at_rest(),
    {
        !self.forward && !self.backward && !self.left_movement && !self.right_movement
    }
}

/// A camera that is asked for no movement takes no step in an update: its
/// position is left alone. A camera that is asked for any takes at least one.
pub proof fn camera_at_rest_takes_no_step(camera: CameraView)
    ensures
        camera.at_rest() <==> camera.thrusts() == Seq::<Thrust>::empty(),
        camera.thrusts().len() <= 4,
{
    if camera.at_rest() {
        assert(camera.thrusts() =~= Seq::<Thrust>::empty());
    } else {
        assert(camera.thrusts().len() > 0);
    }
}

/// Events other than key events leave the asked-for movement alone, and a
/// camera that has seen a cursor event never treats another as the first.
pub proof fn only_keys_steer(camera: CameraView, event: WindowEvent)
    ensures
        !(event is Key) ==> camera.after(event).thrusts() == camera.thrusts(),
        !camera.first_click ==> !camera.after(event).first_click,
        event is CursorPos ==> !camera.after(event).first_click,
{
}

} // verus!
