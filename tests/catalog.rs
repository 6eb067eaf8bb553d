use droidpad::axis::Sample;
use droidpad::encode::{code, encode, Backend, Output};
use droidpad::keys::Key;
use droidpad::message::KeyEvent::{Press, Release};
use droidpad::names::{button_key, dpad_key, ends_with, same_text, strip_marker};

#[test]
fn key_event_of_digital_and_analog() {
    assert_eq!(Key::A(Press).key_event(), Some(&Press));
    assert_eq!(Key::ThumbLeft(Release).key_event(), Some(&Release));
    assert_eq!(Key::LeftJoystickX(Sample { num: 0, den: 1 }).key_event(), None);
}

#[test]
fn control_ids() {
    assert_eq!(u8::from(Key::LeftJoystickX(Sample { num: 0, den: 1 })), 0);
    assert_eq!(u8::from(Key::RightJoystickY(Sample { num: 0, den: 1 })), 3);
    assert_eq!(u8::from(Key::A(Press)), 8);
    assert_eq!(u8::from(Key::BumperRight(Press)), 17);
    assert_eq!(u8::from(Key::ThumbLeft(Press)), 19);
}

#[test]
fn set_event_changes_edge_only() {
    assert_eq!(Key::Start(Press).set_event(Release), Key::Start(Release));
    let axis = Key::LeftJoystickY(Sample { num: 1, den: 2 });
    assert_eq!(axis.set_event(Press), axis);
}

#[test]
fn uinput_codes() {
    assert_eq!(code(&Key::A(Press), Backend::Uinput), 304);
    assert_eq!(code(&Key::Y(Press), Backend::Uinput), 307);
    assert_eq!(code(&Key::X(Press), Backend::Uinput), 308);
    assert_eq!(code(&Key::TriggerLeft(Press), Backend::Uinput), 312);
    assert_eq!(code(&Key::ThumbRight(Press), Backend::Uinput), 318);
    assert_eq!(code(&Key::DPadRight(Press), Backend::Uinput), 547);
}

#[test]
fn vjoy_codes() {
    assert_eq!(code(&Key::A(Press), Backend::VJoy), 1);
    assert_eq!(code(&Key::Select(Press), Backend::VJoy), 9);
    assert_eq!(code(&Key::ThumbLeft(Press), Backend::VJoy), 11);
    assert_eq!(code(&Key::DPadLeft(Press), Backend::VJoy), 15);
    assert_eq!(code(&Key::RightJoystickX(Sample { num: 0, den: 1 }), Backend::VJoy), 3);
}

#[test]
fn encode_button_level() {
    assert_eq!(encode(&Key::B(Press), Backend::VJoy), Output::Button { code: 2, pressed: true });
    assert_eq!(encode(&Key::B(Release), Backend::Uinput), Output::Button { code: 305, pressed: false });
}

#[test]
fn encode_saturates_to_i32() {
    let big = Key::LeftJoystickX(Sample { num: i32::MAX, den: 1 });
    assert_eq!(encode(&big, Backend::Uinput), Output::Axis { code: 0, value: i32::MAX });
    let small = Key::LeftJoystickX(Sample { num: i32::MIN, den: 1 });
    assert_eq!(encode(&small, Backend::Uinput), Output::Axis { code: 0, value: i32::MIN });
}

#[test]
fn encode_inverts_vertical_axes_only() {
    let half = Sample { num: 1, den: 2 };
    assert_eq!(encode(&Key::RightJoystickX(half), Backend::VJoy), Output::Axis { code: 3, value: 24575 });
    assert_eq!(encode(&Key::RightJoystickY(half), Backend::VJoy), Output::Axis { code: 4, value: 8192 });
}

#[test]
fn text_helpers() {
    assert!(same_text("thumb", "thumb"));
    assert!(!same_text("thumb", "thumbs"));
    assert!(ends_with("A_dth", "_dth"));
    assert!(!ends_with("_dt", "_dth"));
    assert!(ends_with("A", ""));
    assert_eq!(strip_marker("lb_dth", "_dth"), "lb");
    assert_eq!(strip_marker("lb", "_dth"), "lb");
    assert_eq!(strip_marker("A_dthX", "_dth"), "A");
    assert_eq!(strip_marker("x_dth_dth", "_dth"), "x");
    assert_eq!(strip_marker("_dth", "_dth"), "");
    assert_eq!(strip_marker("rt", ""), "rt");
}

#[test]
fn button_and_dpad_names() {
    assert_eq!(button_key("back", Press), Some(Key::Select(Press)));
    assert_eq!(button_key("lt", Release), Some(Key::TriggerLeft(Release)));
    assert_eq!(button_key("thumb_right", Press), Some(Key::ThumbRight(Press)));
    assert_eq!(button_key("a", Press), None);
    assert_eq!(dpad_key("UP", Press), Some(Key::DPadUp(Press)));
    assert_eq!(dpad_key("up", Press), None);
}
