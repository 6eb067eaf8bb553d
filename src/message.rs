use vstd::prelude::*;

use crate::axis::Sample;

verus! {

/// Direction of a digital edge reported by the client.
#[derive(Debug, Clone, Copy, PartialEq, Eq, Structural)]
pub enum KeyEvent {
    Release,
    Press,
}

impl KeyEvent {
    pub fn is_press(&self) -> (r: bool)
        ensures
            r == (*self == KeyEvent::Press),
    {
        match self {
            KeyEvent::Release => false,
            KeyEvent::Press => true,
        }
    }
}

/// One decoded client message.
#[derive(Debug, Clone)]
pub enum Message {
    /// A direction of the directional pad (`button` is `LEFT`, `RIGHT`, `UP` or `DOWN`).
    Dpad { id: String, button: String, state: KeyEvent },
    /// A stick (`id` is `left` or `right`) with both of its axes.
    Joystick { id: String, x: Sample, y: Sample },
    /// A button, named by `id`, possibly followed by the enrollment marker.
    Button { id: String, state: KeyEvent },
}

} // verus!
