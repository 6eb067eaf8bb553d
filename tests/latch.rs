use droidpad::latch::{KeyState, LatchEntry, TapLatch};
use droidpad::message::KeyEvent::{Press, Release};

const TH: Option<u64> = Some(200);

#[test]
fn key_state_from_edge() {
    assert_eq!(KeyState::from(Press), KeyState::Pressed);
    assert_eq!(KeyState::from(Release), KeyState::Released);
    assert_eq!(KeyState::default(), KeyState::Released);
}

#[test]
fn first_edge_is_forwarded_and_stamped() {
    let mut l = TapLatch::new();
    assert_eq!(l.entry(8), None);
    assert_eq!(l.handle(8, Release, 50, TH), Some(Release));
    assert_eq!(
        l.entry(8),
        Some(LatchEntry { state: KeyState::Released, last_press: 50 })
    );
}

#[test]
fn double_tap_within_threshold_latches() {
    let mut l = TapLatch::new();
    let inputs = [
        (Press, 0),
        (Release, 50),
        (Press, 100),
        (Release, 150),
        (Press, 1000),
        (Release, 1050),
    ];
    let out: Vec<_> = inputs.iter().map(|&(e, t)| l.handle(8, e, t, TH)).collect();
    assert_eq!(
        out,
        vec![Some(Press), Some(Release), Some(Press), None, Some(Press), Some(Release)]
    );
    assert_eq!(out.iter().filter(|o| o.is_some()).count(), 5);
}

#[test]
fn third_input_enters_held() {
    let mut l = TapLatch::new();
    l.handle(8, Press, 0, TH);
    l.handle(8, Release, 50, TH);
    l.handle(8, Press, 199, TH);
    assert_eq!(l.entry(8).unwrap().state, KeyState::Held);
    assert_eq!(l.handle(8, Release, 250, TH), None);
    assert_eq!(l.entry(8).unwrap().state, KeyState::Held);
}

#[test]
fn slow_second_tap_restamps() {
    let mut l = TapLatch::new();
    l.handle(8, Press, 0, TH);
    l.handle(8, Release, 50, TH);
    assert_eq!(l.handle(8, Press, 200, TH), Some(Press));
    assert_eq!(
        l.entry(8),
        Some(LatchEntry { state: KeyState::Pressed, last_press: 200 })
    );
    l.handle(8, Release, 250, TH);
    // within 200 ms of the press at 200, not of the first one
    l.handle(8, Press, 399, TH);
    assert_eq!(l.entry(8).unwrap().state, KeyState::Held);
}

#[test]
fn repeated_edges_are_swallowed() {
    let mut l = TapLatch::new();
    assert_eq!(l.handle(3, Press, 0, TH), Some(Press));
    assert_eq!(l.handle(3, Press, 10, TH), None);
    assert_eq!(l.handle(3, Release, 20, TH), Some(Release));
    assert_eq!(l.handle(3, Release, 30, TH), None);
}

#[test]
fn disabled_threshold_never_holds() {
    let mut l = TapLatch::new();
    let mut forwarded = 0;
    for i in 0..20u64 {
        let e = if i % 2 == 0 { Press } else { Release };
        if l.handle(5, e, i, None).is_some() {
            forwarded += 1;
        }
        assert_ne!(l.entry(5).unwrap().state, KeyState::Held);
    }
    assert_eq!(forwarded, 20);
}

#[test]
fn zero_threshold_never_holds() {
    let mut l = TapLatch::new();
    for i in 0..10u64 {
        let e = if i % 2 == 0 { Press } else { Release };
        l.handle(5, e, 0, Some(0));
        assert_ne!(l.entry(5).unwrap().state, KeyState::Held);
    }
}

#[test]
fn clock_going_backwards_counts_as_no_time() {
    let mut l = TapLatch::new();
    l.handle(8, Press, 1000, TH);
    l.handle(8, Release, 1010, TH);
    l.handle(8, Press, 10, TH);
    assert_eq!(l.entry(8).unwrap().state, KeyState::Held);
}

#[test]
fn controls_are_tracked_separately() {
    let mut l = TapLatch::new();
    l.handle(8, Press, 0, TH);
    l.handle(8, Release, 10, TH);
    assert_eq!(l.handle(9, Press, 20, TH), Some(Press));
    assert_eq!(l.entry(9).unwrap().state, KeyState::Pressed);
    assert_eq!(l.entry(8).unwrap().state, KeyState::Released);
}

#[test]
fn disabled_threshold_forwards_repeated_edges_unchanged() {
    let mut l = TapLatch::new();
    let edges = [Release, Release, Press, Press, Press, Release, Press];
    for (t, e) in edges.iter().enumerate() {
        assert_eq!(l.handle(4, *e, t as u64, None), Some(*e));
        assert_eq!(l.entry(4).unwrap().state, KeyState::from(*e));
    }
}

#[test]
fn disabled_threshold_releases_a_held_control() {
    let mut l = TapLatch::new();
    l.handle(8, Press, 0, TH);
    l.handle(8, Release, 10, TH);
    l.handle(8, Press, 20, TH);
    assert_eq!(l.entry(8).unwrap().state, KeyState::Held);
    assert_eq!(l.handle(8, Release, 30, None), Some(Release));
    assert_eq!(l.entry(8).unwrap().state, KeyState::Released);
}
