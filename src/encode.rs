use vstd::prelude::*;

use crate::axis::{lemma_invert_is_negation, normalize, normalized, Sample};
use crate::keys::Key;
use crate::message::KeyEvent;

verus! {

/// The kind of virtual device a session drives.
#[derive(Debug, Clone, Copy, PartialEq, Eq, Structural)]
pub enum Backend {
    /// A Linux uinput gamepad: axes span [-32768, 32767], codes are the kernel's
    /// `ABS_*` and `BTN_*` numbers.
    Uinput,
    /// A vJoy device: axes span [0, 32767], axes and buttons are numbered from 1.
    VJoy,
}

/// One write to the device's pending state.
#[derive(Debug, Clone, Copy, PartialEq, Eq, Structural)]
pub enum Output {
    Axis { code: u16, value: i32 },
    Button { code: u16, pressed: bool },
}

pub const UINPUT_AXIS_MIN: i32 = -32768;

pub const UINPUT_AXIS_MAX: i32 = 32767;

pub const VJOY_AXIS_MIN: i32 = 0;

pub const VJOY_AXIS_MAX: i32 = 32767;

impl Backend {
    pub open spec fn axis_min(self) -> i32 {
        match self {
            Backend::Uinput => UINPUT_AXIS_MIN,
            Backend::VJoy => VJOY_AXIS_MIN,
        }
    }

    pub open spec fn axis_max(self) -> i32 {
        match self {
            Backend::Uinput => UINPUT_AXIS_MAX,
            Backend::VJoy => VJOY_AXIS_MAX,
        }
    }
}

/// The device code that `backend` uses for the control of `key`.
pub open spec fn code_of(key: Key, backend: Backend) -> u16 {
    match backend {
        Backend::Uinput => match key {
            Key::LeftJoystickX(_) => 0,
            Key::LeftJoystickY(_) => 1,
            Key::RightJoystickX(_) => 3,
            Key::RightJoystickY(_) => 4,
            Key::DPadUp(_) => 544,
            Key::DPadDown(_) => 545,
            Key::DPadLeft(_) => 546,
            Key::DPadRight(_) => 547,
            Key::A(_) => 304,
            Key::B(_) => 305,
            Key::X(_) => 308,
            Key::Y(_) => 307,
            Key::Start(_) => 315,
            Key::Select(_) => 314,
            Key::TriggerLeft(_) => 312,
            Key::BumperLeft(_) => 310,
            Key::TriggerRight(_) => 313,
            Key::BumperRight(_) => 311,
            Key::ThumbRight(_) => 318,
            Key::ThumbLeft(_) => 317,
        },
        Backend::VJoy => match key {
            Key::A(_) => 1,
            Key::B(_) => 2,
            Key::X(_) => 3,
            Key::Y(_) => 4,
            Key::LeftJoystickX(_) => 1,
            Key::LeftJoystickY(_) => 2,
            Key::RightJoystickX(_) => 3,
            Key::RightJoystickY(_) => 4,
            Key::BumperLeft(_) => 5,
            Key::BumperRight(_) => 6,
            Key::TriggerLeft(_) => 7,
            Key::TriggerRight(_) => 8,
            Key::Select(_) => 9,
            Key::Start(_) => 10,
            Key::ThumbLeft(_) => 11,
            Key::ThumbRight(_) => 12,
            Key::DPadUp(_) => 13,
            Key::DPadDown(_) => 14,
            Key::DPadLeft(_) => 15,
            Key::DPadRight(_) => 16,
        },
    }
}

/// `v` forced into the range of `i32`.
pub open spec fn saturate(v: int) -> i32 {
    if v < i32::MIN {
        i32::MIN
    } else if v > i32::MAX {
        i32::MAX
    } else {
        v as i32
    }
}

/// A stick sample placed on `backend`'s axis domain; the Y axes are inverted so that
/// pushing the stick up gives the low end.
pub open spec fn axis_value(s: Sample, invert: bool, backend: Backend) -> i32 {
    saturate(
        normalized(
            s.numer(),
            s.denom(),
            backend.axis_min() as int,
            backend.axis_max() as int,
            invert,
        ),
    )
}

/// The write that puts `key` on a device of kind `backend`.
pub open spec fn encoded(key: Key, backend: Backend) -> Output {
    let code = code_of(key, backend);
    match key {
        Key::LeftJoystickX(s) => Output::Axis { code, value: axis_value(s, false, backend) },
        Key::LeftJoystickY(s) => Output::Axis { code, value: axis_value(s, true, backend) },
        Key::RightJoystickX(s) => Output::Axis { code, value: axis_value(s, false, backend) },
        Key::RightJoystickY(s) => Output::Axis { code, value: axis_value(s, true, backend) },
        _ => Output::Button { code, pressed: key.event() == Some(KeyEvent::Press) },
    }
}

fn saturate_i64(v: i64) -> (r: i32)
    ensures
        r == saturate(v as int),
{
    if v < i32::MIN as i64 {
        i32::MIN
    } else if v > i32::MAX as i64 {
        i32::MAX
    } else {
        v as i32
    }
}

fn axis(s: Sample, invert: bool, backend: Backend) -> (r: i32)
    requires
        s.wf(),
    ensures
        r == axis_value(s, invert, backend),
{
    let (min, max) = match backend {
        Backend::Uinput => (UINPUT_AXIS_MIN, UINPUT_AXIS_MAX),
        Backend::VJoy => (VJOY_AXIS_MIN, VJOY_AXIS_MAX),
    };
    saturate_i64(normalize(s, min, max, invert))
}

/// The device code that `backend` uses for the control of `key`.
pub fn code(key: &Key, backend: Backend) -> (r: u16)
    ensures
        r == code_of(*key, backend),
{
    match backend {
        Backend::Uinput => match key {
            Key::LeftJoystickX(_) => 0,
            Key::LeftJoystickY(_) => 1,
            Key::RightJoystickX(_) => 3,
            Key::RightJoystickY(_) => 4,
            Key::DPadUp(_) => 544,
            Key::DPadDown(_) => 545,
            Key::DPadLeft(_) => 546,
            Key::DPadRight(_) => 547,
            Key::A(_) => 304,
            Key::B(_) => 305,
            Key::X(_) => 308,
            Key::Y(_) => 307,
            Key::Start(_) => 315,
            Key::Select(_) => 314,
            Key::TriggerLeft(_) => 312,
            Key::BumperLeft(_) => 310,
            Key::TriggerRight(_) => 313,
            Key::BumperRight(_) => 311,
            Key::ThumbRight(_) => 318,
            Key::ThumbLeft(_) => 317,
        },
        Backend::VJoy => match key {
            Key::A(_) => 1,
            Key::B(_) => 2,
            Key::X(_) => 3,
            Key::Y(_) => 4,
            Key::LeftJoystickX(_) => 1,
            Key::LeftJoystickY(_) => 2,
            Key::RightJoystickX(_) => 3,
            Key::RightJoystickY(_) => 4,
            Key::BumperLeft(_) => 5,
            Key::BumperRight(_) => 6,
            Key::TriggerLeft(_) => 7,
            Key::TriggerRight(_) => 8,
            Key::Select(_) => 9,
            Key::Start(_) => 10,
            Key::ThumbLeft(_) => 11,
            Key::ThumbRight(_) => 12,
            Key::DPadUp(_) => 13,
            Key::DPadDown(_) => 14,
            Key::DPadLeft(_) => 15,
            Key::DPadRight(_) => 16,
        },
    }
}

/// The write that puts `key` on a device of kind `backend`: a stick axis becomes its
/// normalized value (Y inverted, saturated to `i32`), a digital control its pressed flag.
pub fn encode(key: &Key, backend: Backend) -> (r: Output)
    requires
        key.wf(),
    ensures
        r == encoded(*key, backend),
{
    let code = code(key, backend);
    match *key {
        Key::LeftJoystickX(s) => Output::Axis { code, value: axis(s, false, backend) },
        Key::LeftJoystickY(s) => Output::Axis { code, value: axis(s, true, backend) },
        Key::RightJoystickX(s) => Output::Axis { code, value: axis(s, false, backend) },
        Key::RightJoystickY(s) => Output::Axis { code, value: axis(s, true, backend) },
        _ => {
            let pressed = match key.key_event() {
                Some(e) => e.is_press(),
                None => false,
            };
            Output::Button { code, pressed }
        },
    }
}

/// On either kind of device a vertical axis takes the value that the negated sample
/// gives unflipped, and a horizontal axis the value of the sample itself.
pub proof fn lemma_vertical_axes_invert(s: Sample, backend: Backend)
    requires
        s.wf(),
    ensures
        encoded(Key::LeftJoystickY(s), backend) == (Output::Axis {
            code: code_of(Key::LeftJoystickY(s), backend),
            value: saturate(
                normalized(
                    -s.numer(),
                    s.denom(),
                    backend.axis_min() as int,
                    backend.axis_max() as int,
                    false,
                ),
            ),
        }),
        encoded(Key::RightJoystickY(s), backend) == (Output::Axis {
            code: code_of(Key::RightJoystickY(s), backend),
            value: saturate(
                normalized(
                    -s.numer(),
                    s.denom(),
                    backend.axis_min() as int,
                    backend.axis_max() as int,
                    false,
                ),
            ),
        }),
        encoded(Key::LeftJoystickX(s), backend) == (Output::Axis {
            code: code_of(Key::LeftJoystickX(s), backend),
            value: saturate(
                normalized(
                    s.numer(),
                    s.denom(),
                    backend.axis_min() as int,
                    backend.axis_max() as int,
                    false,
                ),
            ),
        }),
{
    lemma_invert_is_negation(
        s.numer(),
        s.denom(),
        backend.axis_min() as int,
        backend.axis_max() as int,
    );
}

} // verus!
