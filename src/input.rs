use vstd::prelude::*;
use crate::orientation::{clamp_pitch, wrap_yaw, Orientation, MOUSE_SENSITIVITY};

verus! {

/// A key that the controls react to.
#[derive(Clone, Copy, Debug, PartialEq, Eq, Structural)]
pub enum Key {
    W,
    A,
    S,
    D,
    Space,
    Other,
}

/// A mouse button.
#[derive(Clone, Copy, Debug, PartialEq, Eq, Structural)]
pub enum MouseButton {
    Left,
    Other,
}

/// An input event of the window system, reduced to what the controls read.
#[derive(Clone, Copy, Debug, PartialEq, Eq, Structural)]
pub enum InputEvent {
    KeyDown(Key),
    KeyUp(Key),
    MouseMotion { xrel: i32, yrel: i32 },
    MouseButtonDown(MouseButton),
    Other,
}

/// Keys held for movement, and the two toggles.
#[derive(Clone, Copy, Debug, PartialEq, Eq, Structural)]
pub struct InputState {
    pub forward: bool,
    pub backward: bool,
    pub right: bool,
    pub left: bool,
    pub space_toggle: bool,
    pub grab_mouse: bool,
}

/// Direction along one axis of two opposed keys: +1, -1, or 0 when neither
/// or both are held.
pub open spec fn axis(positive: bool, negative: bool) -> int {
    if positive && !negative {
        1
    } else if negative && !positive {
        -1
    } else {
        0
    }
}

/// The input state after `e`: W, S, D and A are held from key-down to
/// key-up, Space flips the space toggle, the left mouse button flips the
/// mouse grab; nothing else changes it.
pub open spec fn after_event(s: InputState, e: InputEvent) -> InputState {
    match e {
        InputEvent::KeyDown(Key::W) => InputState { forward: true, ..s },
        InputEvent::KeyDown(Key::S) => InputState { backward: true, ..s },
        InputEvent::KeyDown(Key::D) => InputState { right: true, ..s },
        InputEvent::KeyDown(Key::A) => InputState { left: true, ..s },
        InputEvent::KeyDown(Key::Space) => InputState { space_toggle: !s.space_toggle, ..s },
        InputEvent::KeyUp(Key::W) => InputState { forward: false, ..s },
        InputEvent::KeyUp(Key::S) => InputState { backward: false, ..s },
        InputEvent::KeyUp(Key::D) => InputState { right: false, ..s },
        InputEvent::KeyUp(Key::A) => InputState { left: false, ..s },
        InputEvent::MouseButtonDown(MouseButton::Left) => InputState { grab_mouse: !s.grab_mouse, ..s },
        _ => s,
    }
}

impl Default for InputState {
    fn default() -> (r: Self)
        ensures
            r == InputState::released(),
    {
        InputState::new()
    }
}

impl InputState {
    /// No key held, both toggles off.
    pub open spec fn released() -> InputState {
        InputState {
            forward: false,
            backward: false,
            right: false,
            left: false,
            space_toggle: false,
            grab_mouse: false,
        }
    }

    pub fn new() -> (r: Self)
        ensures
            r == InputState::released(),
    {
        InputState {
            forward: false,
            backward: false,
            right: false,
            left: false,
            space_toggle: false,
            grab_mouse: false,
        }
    }

    /// Applies one event: keys and buttons update the state, mouse motion
    /// turns `view`. Returns whether `view` was turned, after which the
    /// camera's direction has to be recomputed.
    pub fn handle_input(&mut self, view: &mut Orientation, event: InputEvent) -> (turned: bool)
        ensures
            *final(self) == after_event(*old(self), event),
            turned == event is MouseMotion,
            match event {
                InputEvent::MouseMotion { xrel, yrel } => {
                    &&& final(view).yaw_spec() == wrap_yaw(old(view).yaw_spec() + MOUSE_SENSITIVITY * xrel)
                    &&& final(view).pitch_spec() == clamp_pitch(old(view).pitch_spec() - MOUSE_SENSITIVITY * yrel)
                    &&& final(view).wf()
                },
                _ => *final(view) == *old(view),
            },
    {
        match event {
            InputEvent::KeyDown(Key::W) => self.forward = true,
            InputEvent::KeyDown(Key::S) => self.backward = true,
            InputEvent::KeyDown(Key::D) => self.right = true,
            InputEvent::KeyDown(Key::A) => self.left = true,
            InputEvent::KeyDown(Key::Space) => self.space_toggle = !self.space_toggle,
            InputEvent::KeyUp(Key::W) => self.forward = false,
            InputEvent::KeyUp(Key::S) => self.backward = false,
            InputEvent::KeyUp(Key::D) => self.right = false,
            InputEvent::KeyUp(Key::A) => self.left = false,
            InputEvent::MouseButtonDown(MouseButton::Left) => self.grab_mouse = !self.grab_mouse,
            InputEvent::MouseMotion { xrel, yrel } => {
                view.look(xrel, yrel);
                return true;
            },
            _ => {},
        }
        false
    }

    /// Whether the mouse is captured by the window.
    pub fn is_mouse_grabbed(&self) -> (r: bool)
        ensures
            r == self.grab_mouse,
    {
        self.grab_mouse
    }

    /// The direction of movement that the held keys ask for: forward (+1) or
    /// backward (-1) first, then right (+1) or left (-1); opposed keys held
    /// together cancel.
    pub fn move_intent(&self) -> (r: (i8, i8))
        ensures
            r.0 == axis(self.forward, self.backward),
            r.1 == axis(self.right, self.left),
    {
        let ahead: i8 = if self.forward && !self.backward {
            1
        } else if self.backward && !self.forward {
            -1
        } else {
            0
        };
        let side: i8 = if self.right && !self.left {
            1
        } else if self.left && !self.right {
            -1
        } else {
            0
        };
        (ahead, side)
    }
}

} // verus!
