use vstd::prelude::*;

use crate::keys::CONTROL_COUNT;
use crate::message::KeyEvent;

verus! {

/// Output state of one digital control enrolled in latching.
#[derive(Debug, Clone, Copy, PartialEq, Eq, Structural)]
pub enum KeyState {
    Pressed,
    Held,
    Released,
}

impl Default for KeyState {
    fn default() -> (r: KeyState)
        ensures
            r == KeyState::Released,
    {
        KeyState::Released
    }
}

/// The state a control enters when `e` is the first edge seen for it.
pub open spec fn state_of(e: KeyEvent) -> KeyState {
    match e {
        KeyEvent::Release => KeyState::Released,
        KeyEvent::Press => KeyState::Pressed,
    }
}

impl From<KeyEvent> for KeyState {
    fn from(value: KeyEvent) -> (r: KeyState) {
        match value {
            KeyEvent::Release => KeyState::Released,
            KeyEvent::Press => KeyState::Pressed,
        }
    }
}

impl vstd::std_specs::convert::FromSpecImpl<KeyEvent> for KeyState {
    open spec fn obeys_from_spec() -> bool {
        true
    }

    open spec fn from_spec(v: KeyEvent) -> KeyState {
        state_of(v)
    }
}

/// What the latch remembers of one control: its state, and the time (in milliseconds)
/// of the press that last moved it from `Released` to `Pressed`.
#[derive(Debug, Clone, Copy, PartialEq, Eq, Structural)]
pub struct LatchEntry {
    pub state: KeyState,
    pub last_press: u64,
}

/// Milliseconds from `from` to `now`; zero if the clock reads earlier than `from`.
pub open spec fn elapsed(from: u64, now: u64) -> int {
    if now >= from {
        now - from
    } else {
        0
    }
}

/// A press `elapsed_ms` after the last counted press latches: `threshold` is `None` when
/// latching is switched off.
pub open spec fn within(threshold: Option<u64>, elapsed_ms: int) -> bool {
    match threshold {
        Some(t) => elapsed_ms < t,
        None => false,
    }
}

/// One transition of the latch for one control: the entry after the edge `e` arrives at
/// time `now`, and the edge forwarded to the device, if any. With latching switched off
/// (`threshold` is `None`) every edge passes through as a plain tap.
pub open spec fn latch_step(entry: Option<LatchEntry>, e: KeyEvent, now: u64, threshold: Option<u64>) -> (
    LatchEntry,
    Option<KeyEvent>,
) {
    if threshold is None {
        let last_press = match entry {
            Some(en) => en.last_press,
            None => now,
        };
        (LatchEntry { state: state_of(e), last_press }, Some(e))
    } else {
        latch_step_timed(entry, e, now, threshold)
    }
}

/// The transition table of the latch while latching is switched on.
pub open spec fn latch_step_timed(
    entry: Option<LatchEntry>,
    e: KeyEvent,
    now: u64,
    threshold: Option<u64>,
) -> (LatchEntry, Option<KeyEvent>) {
    match entry {
        None => (LatchEntry { state: state_of(e), last_press: now }, Some(e)),
        Some(en) => match (en.state, e) {
            (KeyState::Pressed, KeyEvent::Release) => (
                LatchEntry { state: KeyState::Released, ..en },
                Some(KeyEvent::Release),
            ),
            (KeyState::Pressed, KeyEvent::Press) => (en, None),
            (KeyState::Held, KeyEvent::Release) => (en, None),
            (KeyState::Held, KeyEvent::Press) => (
                LatchEntry { state: KeyState::Pressed, ..en },
                Some(KeyEvent::Press),
            ),
            (KeyState::Released, KeyEvent::Press) => if within(
                threshold,
                elapsed(en.last_press, now),
            ) {
                (LatchEntry { state: KeyState::Held, ..en }, Some(KeyEvent::Press))
            } else {
                (LatchEntry { state: KeyState::Pressed, last_press: now }, Some(KeyEvent::Press))
            },
            (KeyState::Released, KeyEvent::Release) => (en, None),
        },
    }
}

/// Per-session latch state of every digital control, indexed by control id. A control
/// never seen has no entry; its state and its last press time are kept together, so
/// each control has both or neither.
pub struct TapLatch {
    entries: Vec<Option<LatchEntry>>,
}

impl TapLatch {
    pub closed spec fn view(&self) -> Seq<Option<LatchEntry>> {
        self.entries@
    }

    pub open spec fn wf(&self) -> bool {
        self.view().len() == CONTROL_COUNT as int
    }

    /// A latch with no control seen yet.
    pub fn new() -> (r: TapLatch)
        ensures
            r.wf(),
            forall|i: int| 0 <= i < CONTROL_COUNT ==> (#[trigger] r.view()[i]) is None,
    {
        let mut entries: Vec<Option<LatchEntry>> = Vec::new();
        let mut i: u8 = 0;
        while i < CONTROL_COUNT
            invariant
                i <= CONTROL_COUNT,
                entries@.len() == i as int,
                forall|j: int| 0 <= j < i ==> (#[trigger] entries@[j]) is None,
            decreases CONTROL_COUNT - i,
        {
            entries.push(None);
            i = i + 1;
        }
        TapLatch { entries }
    }

    /// What the latch holds for control `id`.
    pub fn entry(&self, id: u8) -> (r: Option<LatchEntry>)
        requires
            self.wf(),
            id < CONTROL_COUNT,
        ensures
            r == self.view()[id as int],
    {
        self.entries[id as usize]
    }

    /// Feeds edge `e` of control `id`, arriving at time `now` (milliseconds), through the
    /// latch, and returns the edge to forward, if any.
    pub fn handle(&mut self, id: u8, e: KeyEvent, now: u64, threshold: Option<u64>) -> (r: Option<KeyEvent>)
        requires
            old(self).wf(),
            id < CONTROL_COUNT,
        ensures
            final(self).wf(),
            ({
                let (entry, out) = latch_step(old(self).view()[id as int], e, now, threshold);
                &&& r == out
                &&& final(self).view() == old(self).view().update(id as int, Some(entry))
            }),
    {
        let i = id as usize;
        if threshold.is_none() {
            let last_press = match self.entries[i] {
                Some(en) => en.last_press,
                None => now,
            };
            self.entries.set(i, Some(LatchEntry { state: KeyState::from(e), last_press }));
            return Some(e);
        }
        let (entry, out) = match self.entries[i] {
            None => (LatchEntry { state: KeyState::from(e), last_press: now }, Some(e)),
            Some(en) => match (en.state, e) {
                (KeyState::Pressed, KeyEvent::Release) => (
                    LatchEntry { state: KeyState::Released, last_press: en.last_press },
                    Some(KeyEvent::Release),
                ),
                (KeyState::Pressed, KeyEvent::Press) => (en, None),
                (KeyState::Held, KeyEvent::Release) => (en, None),
                (KeyState::Held, KeyEvent::Press) => (
                    LatchEntry { state: KeyState::Pressed, last_press: en.last_press },
                    Some(KeyEvent::Press),
                ),
                (KeyState::Released, KeyEvent::Press) => {
                    let since: u64 = if now >= en.last_press { now - en.last_press } else { 0 };
                    let latch = match threshold {
                        Some(t) => since < t,
                        None => false,
                    };
                    if latch {
                        (LatchEntry { state: KeyState::Held, last_press: en.last_press }, Some(KeyEvent::Press))
                    } else {
                        (LatchEntry { state: KeyState::Pressed, last_press: now }, Some(KeyEvent::Press))
                    }
                },
                (KeyState::Released, KeyEvent::Release) => (en, None),
            },
        };
        self.entries.set(i, Some(entry));
        out
    }
}

/// The latch run over a sequence of `(edge, time)` inputs for one control, starting from
/// `entry`: the entry it ends with and the edges it forwards, in order.
pub open spec fn latch_run(entry: Option<LatchEntry>, inputs: Seq<(KeyEvent, u64)>, threshold: Option<u64>) -> (
    Option<LatchEntry>,
    Seq<KeyEvent>,
)
    decreases inputs.len(),
{
    if inputs.len() == 0 {
        (entry, Seq::empty())
    } else {
        let (mid, out) = latch_run(entry, inputs.drop_last(), threshold);
        let (next, o) = latch_step(mid, inputs.last().0, inputs.last().1, threshold);
        (
            Some(next),
            match o {
                Some(x) => out.push(x),
                None => out,
            },
        )
    }
}

/// With latching switched off, a control that is not `Held` never becomes `Held`,
/// whatever edges arrive.
pub proof fn lemma_disabled_never_holds(entry: Option<LatchEntry>, inputs: Seq<(KeyEvent, u64)>)
    requires
        entry matches Some(en) ==> en.state != KeyState::Held,
    ensures
        latch_run(entry, inputs, None).0 matches Some(en) ==> en.state != KeyState::Held,
    decreases inputs.len(),
{
    if inputs.len() > 0 {
        lemma_disabled_never_holds(entry, inputs.drop_last());
    }
}

/// With latching switched off, every edge of any sequence is forwarded unchanged, in
/// order, whatever state the control starts in: as many edges leave as arrive, and the
/// control ends in the state of the last edge.
pub proof fn lemma_disabled_passes_through(entry: Option<LatchEntry>, inputs: Seq<(KeyEvent, u64)>)
    ensures
        latch_run(entry, inputs, None).1 == inputs.map_values(|p: (KeyEvent, u64)| p.0),
        latch_run(entry, inputs, None).1.len() == inputs.len(),
        inputs.len() > 0 ==> latch_run(entry, inputs, None).0 == Some(
            LatchEntry { state: state_of(inputs.last().0), ..latch_run(entry, inputs, None).0->0 },
        ),
    decreases inputs.len(),
{
    if inputs.len() > 0 {
        let prefix = inputs.drop_last();
        lemma_disabled_passes_through(entry, prefix);
        assert(inputs.map_values(|p: (KeyEvent, u64)| p.0) =~= prefix.map_values(
            |p: (KeyEvent, u64)| p.0,
        ).push(inputs.last().0));
    }
}

/// Tap, then a second press within the threshold of the first, then a further tap: the
/// second press latches the control (`Held`), its release is swallowed, and the third tap
/// releases it as a plain press and release.
pub proof fn lemma_double_tap_latches(times: Seq<u64>, threshold: u64)
    requires
        times.len() == 6,
        elapsed(times[0], times[2]) < threshold,
    ensures
        ({
            let inputs = seq![
                (KeyEvent::Press, times[0]),
                (KeyEvent::Release, times[1]),
                (KeyEvent::Press, times[2]),
                (KeyEvent::Release, times[3]),
                (KeyEvent::Press, times[4]),
                (KeyEvent::Release, times[5]),
            ];
            &&& latch_run(None, inputs.take(3), Some(threshold)).0 matches Some(en) && en.state
                == KeyState::Held
            &&& latch_run(None, inputs.take(4), Some(threshold)).1 == latch_run(
                None,
                inputs.take(3),
                Some(threshold),
            ).1
            &&& latch_run(None, inputs, Some(threshold)).1 == seq![
                KeyEvent::Press,
                KeyEvent::Release,
                KeyEvent::Press,
                KeyEvent::Press,
                KeyEvent::Release,
            ]
            &&& latch_run(None, inputs, Some(threshold)).0 matches Some(en) && en.state
                == KeyState::Released
        }),
{
    let inputs = seq![
        (KeyEvent::Press, times[0]),
        (KeyEvent::Release, times[1]),
        (KeyEvent::Press, times[2]),
        (KeyEvent::Release, times[3]),
        (KeyEvent::Press, times[4]),
        (KeyEvent::Release, times[5]),
    ];
    let th = Some(threshold);
    assert(inputs.take(1).drop_last() =~= inputs.take(0));
    assert(inputs.take(2).drop_last() =~= inputs.take(1));
    assert(inputs.take(3).drop_last() =~= inputs.take(2));
    assert(inputs.take(4).drop_last() =~= inputs.take(3));
    assert(inputs.take(5).drop_last() =~= inputs.take(4));
    assert(inputs.drop_last() =~= inputs.take(5));
    let r0 = latch_run(None, inputs.take(0), th);
    assert(r0.0 is None && r0.1.len() == 0);
    let r1 = latch_run(None, inputs.take(1), th);
    assert(r1.0 == Some(LatchEntry { state: KeyState::Pressed, last_press: times[0] }));
    let r2 = latch_run(None, inputs.take(2), th);
    assert(r2.0 == Some(LatchEntry { state: KeyState::Released, last_press: times[0] }));
    let r3 = latch_run(None, inputs.take(3), th);
    assert(r3.0 == Some(LatchEntry { state: KeyState::Held, last_press: times[0] }));
    let r4 = latch_run(None, inputs.take(4), th);
    assert(r4.0 == r3.0 && r4.1 == r3.1);
    let r5 = latch_run(None, inputs.take(5), th);
    assert(r5.0 == Some(LatchEntry { state: KeyState::Pressed, last_press: times[0] }));
    let r6 = latch_run(None, inputs, th);
    assert(r6.1 =~= seq![
        KeyEvent::Press,
        KeyEvent::Release,
        KeyEvent::Press,
        KeyEvent::Press,
        KeyEvent::Release,
    ]);
}

} // verus!
