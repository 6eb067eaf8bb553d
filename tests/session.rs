use droidpad::axis::Sample;
use droidpad::controller::{message_key_list, Controller};
use droidpad::encode::{Backend, Output};
use droidpad::keys::Key;
use droidpad::latch::KeyState;
use droidpad::message::KeyEvent::{Press, Release};
use droidpad::message::{KeyEvent, Message};
use droidpad::pool::SlotPool;

fn button(id: &str, state: KeyEvent) -> Message {
    Message::Button { id: id.to_string(), state }
}

fn stick(id: &str, x: Sample, y: Sample) -> Message {
    Message::Joystick { id: id.to_string(), x, y }
}

fn session(backend: Backend, threshold: Option<u64>, marker: &str) -> Controller {
    let mut pool = SlotPool::new(4);
    Controller::new(backend, threshold, marker.to_string(), &mut pool).unwrap()
}

fn uinput() -> Controller {
    session(Backend::Uinput, Some(200), "_dth")
}

const A_DOWN: Output = Output::Button { code: 304, pressed: true };
const A_UP: Output = Output::Button { code: 304, pressed: false };

#[test]
fn unenrolled_button_passes_every_edge() {
    let mut c = uinput();
    let edges = [Press, Press, Release, Press, Release, Release, Press];
    for (t, e) in edges.iter().enumerate() {
        let writes = c.handle_message(&button("A", *e), t as u64);
        assert_eq!(writes, vec![Output::Button { code: 304, pressed: *e == Press }]);
    }
    assert_eq!(c.latch_entry(8), None);
}

#[test]
fn enrolled_button_double_tap_holds() {
    let mut c = uinput();
    let seq = [(Press, 0), (Release, 40), (Press, 80), (Release, 120), (Press, 900), (Release, 950)];
    let writes: Vec<Vec<Output>> = seq
        .iter()
        .map(|&(e, t)| c.handle_message(&button("A_dth", e), t))
        .collect();
    assert_eq!(
        writes,
        vec![vec![A_DOWN], vec![A_UP], vec![A_DOWN], vec![], vec![A_DOWN], vec![A_UP]]
    );
}

#[test]
fn held_button_stays_visible_after_release() {
    let mut c = uinput();
    c.handle_message(&button("A_dth", Press), 0);
    c.handle_message(&button("A_dth", Release), 10);
    c.handle_message(&button("A_dth", Press), 20);
    c.handle_message(&button("A_dth", Release), 30);
    assert_eq!(c.latch_entry(8).unwrap().state, KeyState::Held);
    assert_eq!(c.shown_write(8), Some(A_DOWN));
}

#[test]
fn empty_marker_enrolls_every_button() {
    let mut c = session(Backend::Uinput, Some(200), "");
    c.handle_message(&button("B", Press), 0);
    c.handle_message(&button("B", Release), 10);
    c.handle_message(&button("B", Press), 20);
    assert_eq!(c.latch_entry(9).unwrap().state, KeyState::Held);
}

#[test]
fn disabled_threshold_forwards_alternating_edges() {
    let mut c = session(Backend::Uinput, None, "_dth");
    let mut n = 0;
    for t in 0..10u64 {
        let e = if t % 2 == 0 { Press } else { Release };
        n += c.handle_message(&button("A_dth", e), t).len();
        assert_ne!(c.latch_entry(8).unwrap().state, KeyState::Held);
    }
    assert_eq!(n, 10);
}

#[test]
fn joystick_writes_both_axes_y_inverted() {
    let mut c = uinput();
    let w = c.handle_message(&stick("left", Sample { num: 1, den: 1 }, Sample { num: 1, den: 1 }), 0);
    assert_eq!(
        w,
        vec![Output::Axis { code: 0, value: 32767 }, Output::Axis { code: 1, value: -32768 }]
    );
    let w = c.handle_message(&stick("right", Sample { num: 0, den: 1 }, Sample { num: -1, den: 1 }), 0);
    assert_eq!(
        w,
        vec![Output::Axis { code: 3, value: -1 }, Output::Axis { code: 4, value: 32767 }]
    );
    assert_eq!(c.shown_write(0), Some(Output::Axis { code: 0, value: 32767 }));
    assert_eq!(c.shown_write(2), Some(Output::Axis { code: 3, value: -1 }));
}

#[test]
fn vjoy_joystick_range() {
    let mut c = session(Backend::VJoy, Some(200), "_dth");
    let w = c.handle_message(&stick("left", Sample { num: -1, den: 1 }, Sample { num: -1, den: 1 }), 0);
    assert_eq!(
        w,
        vec![Output::Axis { code: 1, value: 0 }, Output::Axis { code: 2, value: 32767 }]
    );
}

#[test]
fn unknown_names_are_dropped() {
    let mut c = uinput();
    assert_eq!(c.handle_message(&button("Z", Press), 0), vec![]);
    assert_eq!(c.handle_message(&stick("middle", Sample { num: 1, den: 1 }, Sample { num: 1, den: 1 }), 0), vec![]);
    let dpad = Message::Dpad { id: "dpad".to_string(), button: "CENTER".to_string(), state: Press };
    assert_eq!(c.handle_message(&dpad, 0), vec![]);
}

#[test]
fn dpad_directions() {
    let mut c = uinput();
    for (name, code) in [("UP", 544), ("DOWN", 545), ("LEFT", 546), ("RIGHT", 547)] {
        let m = Message::Dpad { id: "dpad".to_string(), button: name.to_string(), state: Press };
        assert_eq!(c.handle_message(&m, 0), vec![Output::Button { code, pressed: true }]);
    }
}

#[test]
fn message_key_list_reports_enrollment() {
    assert_eq!(
        message_key_list(&button("thumb_left_dth", Press), "_dth"),
        vec![(Key::ThumbLeft(Press), true)]
    );
    assert_eq!(
        message_key_list(&button("thumb_left", Release), "_dth"),
        vec![(Key::ThumbLeft(Release), false)]
    );
}

#[test]
fn writes_become_visible_only_on_synchronize() {
    let mut c = uinput();
    let w = c.write_input(Key::A(Press));
    assert_eq!(w, A_DOWN);
    assert_eq!(c.pending_write(8), Some(A_DOWN));
    assert_eq!(c.shown_write(8), None);
    c.synchronize();
    assert_eq!(c.shown_write(8), Some(A_DOWN));
}

#[test]
fn synchronize_without_writes_changes_nothing() {
    let mut c = uinput();
    c.handle_message(&button("A", Press), 0);
    let before: Vec<Option<Output>> = (0..20).map(|i| c.shown_write(i)).collect();
    c.synchronize();
    c.synchronize();
    let after: Vec<Option<Output>> = (0..20).map(|i| c.shown_write(i)).collect();
    assert_eq!(before, after);
}

#[test]
fn handle_key_swallowed_edge_writes_nothing() {
    let mut c = uinput();
    assert_eq!(c.handle_key(Key::X(Press), true, 0), Some(Output::Button { code: 308, pressed: true }));
    assert_eq!(c.handle_key(Key::X(Press), true, 5), None);
    assert_eq!(c.handle_key(Key::X(Press), false, 6), Some(Output::Button { code: 308, pressed: true }));
}

#[test]
fn sessions_are_independent() {
    let mut a = uinput();
    let mut b = uinput();
    a.handle_message(&button("A_dth", Press), 0);
    a.handle_message(&button("A_dth", Release), 1);
    a.handle_message(&button("A_dth", Press), 2);
    assert_eq!(a.latch_entry(8).unwrap().state, KeyState::Held);
    assert_eq!(b.latch_entry(8), None);
    assert_eq!(b.handle_message(&button("A_dth", Press), 3), vec![A_DOWN]);
    assert_eq!(b.latch_entry(8).unwrap().state, KeyState::Pressed);
}

#[test]
fn disabled_threshold_forwards_repeated_edges() {
    let mut c = session(Backend::Uinput, None, "_dth");
    let edges = [Press, Press, Release, Release, Release, Press, Press, Release];
    let mut n = 0;
    for (t, e) in edges.iter().enumerate() {
        let w = c.handle_message(&button("A_dth", *e), t as u64);
        assert_eq!(w, vec![Output::Button { code: 304, pressed: *e == Press }]);
        n += w.len();
        assert_ne!(c.latch_entry(8).unwrap().state, KeyState::Held);
    }
    assert_eq!(n, edges.len());
}

#[test]
fn marker_inside_identifier_names_the_control() {
    let mut c = uinput();
    // the text before the marker names the control; it is enrolled only as a suffix
    assert_eq!(c.handle_message(&button("A_dthX", Press), 0), vec![A_DOWN]);
    assert_eq!(c.latch_entry(8), None);
}

#[test]
fn sessions_take_distinct_slots_and_return_them() {
    let mut pool = SlotPool::new(3);
    let a = Controller::new(Backend::VJoy, Some(200), "_dth".to_string(), &mut pool).unwrap();
    let b = Controller::new(Backend::VJoy, Some(200), "_dth".to_string(), &mut pool).unwrap();
    let c = Controller::new(Backend::VJoy, Some(200), "_dth".to_string(), &mut pool).unwrap();
    assert_eq!((a.device_slot(), b.device_slot(), c.device_slot()), (1, 2, 3));
    assert!(Controller::new(Backend::VJoy, None, String::new(), &mut pool).is_none());
    a.close(&mut pool);
    assert!(!pool.is_taken(1));
    assert!(pool.is_taken(2) && pool.is_taken(3));
    let d = Controller::new(Backend::VJoy, None, String::new(), &mut pool).unwrap();
    assert_eq!(d.device_slot(), 1);
    assert_ne!(d.device_slot(), b.device_slot());
}
