use vstd::prelude::*;

use crate::axis::Sample;
use crate::message::KeyEvent;

verus! {

/// Number of distinct controls; their ids are `0 .. CONTROL_COUNT`.
pub const CONTROL_COUNT: u8 = 20;

/// One update of one control: a stick axis with its sample, or a digital control
/// with its edge.
#[derive(Debug, Clone, Copy, PartialEq, Eq, Structural)]
pub enum Key {
    LeftJoystickX(Sample),
    LeftJoystickY(Sample),
    RightJoystickX(Sample),
    RightJoystickY(Sample),
    ThumbRight(KeyEvent),
    ThumbLeft(KeyEvent),
    DPadUp(KeyEvent),
    DPadDown(KeyEvent),
    DPadLeft(KeyEvent),
    DPadRight(KeyEvent),
    A(KeyEvent),
    B(KeyEvent),
    X(KeyEvent),
    Y(KeyEvent),
    Start(KeyEvent),
    Select(KeyEvent),
    TriggerLeft(KeyEvent),
    BumperLeft(KeyEvent),
    TriggerRight(KeyEvent),
    BumperRight(KeyEvent),
}

impl Key {
    /// The stable id of the control this update is for.
    pub open spec fn id(self) -> u8 {
        match self {
            Key::LeftJoystickX(_) => 0,
            Key::LeftJoystickY(_) => 1,
            Key::RightJoystickX(_) => 2,
            Key::RightJoystickY(_) => 3,
            Key::DPadUp(_) => 4,
            Key::DPadDown(_) => 5,
            Key::DPadLeft(_) => 6,
            Key::DPadRight(_) => 7,
            Key::A(_) => 8,
            Key::B(_) => 9,
            Key::X(_) => 10,
            Key::Y(_) => 11,
            Key::Start(_) => 12,
            Key::Select(_) => 13,
            Key::TriggerLeft(_) => 14,
            Key::BumperLeft(_) => 15,
            Key::TriggerRight(_) => 16,
            Key::BumperRight(_) => 17,
            Key::ThumbRight(_) => 18,
            Key::ThumbLeft(_) => 19,
        }
    }

    /// The edge carried by a digital control; `None` for a stick axis.
    pub open spec fn event(self) -> Option<KeyEvent> {
        match self {
            Key::LeftJoystickX(_) => None,
            Key::LeftJoystickY(_) => None,
            Key::RightJoystickX(_) => None,
            Key::RightJoystickY(_) => None,
            Key::ThumbRight(e) => Some(e),
            Key::ThumbLeft(e) => Some(e),
            Key::DPadUp(e) => Some(e),
            Key::DPadDown(e) => Some(e),
            Key::DPadLeft(e) => Some(e),
            Key::DPadRight(e) => Some(e),
            Key::A(e) => Some(e),
            Key::B(e) => Some(e),
            Key::X(e) => Some(e),
            Key::Y(e) => Some(e),
            Key::Start(e) => Some(e),
            Key::Select(e) => Some(e),
            Key::TriggerLeft(e) => Some(e),
            Key::BumperLeft(e) => Some(e),
            Key::TriggerRight(e) => Some(e),
            Key::BumperRight(e) => Some(e),
        }
    }

    /// The same control carrying another edge; a stick axis is left as it is.
    pub open spec fn with_event(self, e: KeyEvent) -> Key {
        match self {
            Key::LeftJoystickX(_) | Key::LeftJoystickY(_) | Key::RightJoystickX(_)
            | Key::RightJoystickY(_) => self,
            Key::ThumbRight(_) => Key::ThumbRight(e),
            Key::ThumbLeft(_) => Key::ThumbLeft(e),
            Key::DPadUp(_) => Key::DPadUp(e),
            Key::DPadDown(_) => Key::DPadDown(e),
            Key::DPadLeft(_) => Key::DPadLeft(e),
            Key::DPadRight(_) => Key::DPadRight(e),
            Key::A(_) => Key::A(e),
            Key::B(_) => Key::B(e),
            Key::X(_) => Key::X(e),
            Key::Y(_) => Key::Y(e),
            Key::Start(_) => Key::Start(e),
            Key::Select(_) => Key::Select(e),
            Key::TriggerLeft(_) => Key::TriggerLeft(e),
            Key::BumperLeft(_) => Key::BumperLeft(e),
            Key::TriggerRight(_) => Key::TriggerRight(e),
            Key::BumperRight(_) => Key::BumperRight(e),
        }
    }

    /// Every sample a stick axis carries is a proper fraction.
    pub open spec fn wf(self) -> bool {
        match self {
            Key::LeftJoystickX(s) | Key::LeftJoystickY(s) | Key::RightJoystickX(s)
            | Key::RightJoystickY(s) => s.wf(),
            _ => true,
        }
    }

    /// The edge of a digital control, or `None` for a stick axis.
    #[verifier::rlimit(40)]
    pub fn key_event(&self) -> (r: Option<&KeyEvent>)
        ensures
            self.event() == (match r {
                Some(e) => Some(*e),
                None => None,
            }),
    {
        match self {
            Key::LeftJoystickX(_) => None,
            Key::LeftJoystickY(_) => None,
            Key::RightJoystickX(_) => None,
            Key::RightJoystickY(_) => None,
            Key::DPadUp(state) => Some(state),
            Key::DPadDown(state) => Some(state),
            Key::DPadLeft(state) => Some(state),
            Key::DPadRight(state) => Some(state),
            Key::A(state) => Some(state),
            Key::B(state) => Some(state),
            Key::X(state) => Some(state),
            Key::Y(state) => Some(state),
            Key::Start(state) => Some(state),
            Key::Select(state) => Some(state),
            Key::TriggerLeft(state) => Some(state),
            Key::BumperLeft(state) => Some(state),
            Key::TriggerRight(state) => Some(state),
            Key::BumperRight(state) => Some(state),
            Key::ThumbRight(state) => Some(state),
            Key::ThumbLeft(state) => Some(state),
        }
    }

    /// The same control carrying `e`; a stick axis is returned unchanged.
    pub fn set_event(&self, e: KeyEvent) -> (r: Key)
        ensures
            r == self.with_event(e),
    {
        match *self {
            Key::LeftJoystickX(_) | Key::LeftJoystickY(_) | Key::RightJoystickX(_)
            | Key::RightJoystickY(_) => *self,
            Key::ThumbRight(_) => Key::ThumbRight(e),
            Key::ThumbLeft(_) => Key::ThumbLeft(e),
            Key::DPadUp(_) => Key::DPadUp(e),
            Key::DPadDown(_) => Key::DPadDown(e),
            Key::DPadLeft(_) => Key::DPadLeft(e),
            Key::DPadRight(_) => Key::DPadRight(e),
            Key::A(_) => Key::A(e),
            Key::B(_) => Key::B(e),
            Key::X(_) => Key::X(e),
            Key::Y(_) => Key::Y(e),
            Key::Start(_) => Key::Start(e),
            Key::Select(_) => Key::Select(e),
            Key::TriggerLeft(_) => Key::TriggerLeft(e),
            Key::BumperLeft(_) => Key::BumperLeft(e),
            Key::TriggerRight(_) => Key::TriggerRight(e),
            Key::BumperRight(_) => Key::BumperRight(e),
        }
    }
}

impl From<Key> for u8 {
    fn from(k: Key) -> (r: u8) {
        match k {
            Key::LeftJoystickX(_) => 0,
            Key::LeftJoystickY(_) => 1,
            Key::RightJoystickX(_) => 2,
            Key::RightJoystickY(_) => 3,
            Key::DPadUp(_) => 4,
            Key::DPadDown(_) => 5,
            Key::DPadLeft(_) => 6,
            Key::DPadRight(_) => 7,
            Key::A(_) => 8,
            Key::B(_) => 9,
            Key::X(_) => 10,
            Key::Y(_) => 11,
            Key::Start(_) => 12,
            Key::Select(_) => 13,
            Key::TriggerLeft(_) => 14,
            Key::BumperLeft(_) => 15,
            Key::TriggerRight(_) => 16,
            Key::BumperRight(_) => 17,
            Key::ThumbRight(_) => 18,
            Key::ThumbLeft(_) => 19,
        }
    }
}

impl vstd::std_specs::convert::FromSpecImpl<Key> for u8 {
    open spec fn obeys_from_spec() -> bool {
        true
    }

    open spec fn from_spec(k: Key) -> u8 {
        k.id()
    }
}

} // verus!
