use vstd::prelude::*;

use crate::encode::{encode, encoded, Backend, Output};
use crate::keys::{Key, CONTROL_COUNT};
use crate::latch::{latch_step, KeyState, LatchEntry, TapLatch};
use crate::message::{KeyEvent, Message};
use crate::pool::{all_taken, is_first_free, SlotPool};
use crate::names::{
    button_key, button_of, control_name, dpad_key, dpad_of, ends_with, has_suffix, same_text,
    strip_marker,
};

verus! {

/// What a session holds, as values: the latch entry of each control, and for each
/// control the last write applied to the device's buffer (`pending`) and the last
/// one made visible by a flush (`shown`), all indexed by control id.
pub struct SessionState {
    pub latch: Seq<Option<LatchEntry>>,
    pub pending: Seq<Option<Output>>,
    pub shown: Seq<Option<Output>>,
}

impl SessionState {
    pub open spec fn wf(self) -> bool {
        &&& self.latch.len() == CONTROL_COUNT as int
        &&& self.pending.len() == CONTROL_COUNT as int
        &&& self.shown.len() == CONTROL_COUNT as int
    }
}

/// The state after a flush: everything applied becomes visible.
pub open spec fn synced(s: SessionState) -> SessionState {
    SessionState { shown: s.pending, ..s }
}

/// `key` applied to the device's buffer.
pub open spec fn applied(s: SessionState, key: Key, backend: Backend) -> SessionState {
    SessionState { pending: s.pending.update(key.id() as int, Some(encoded(key, backend))), ..s }
}

/// One control update through a session: a digital control that is enrolled goes through
/// the latch, anything else is written as it is. The result is the new state and the
/// write made, if any.
pub open spec fn key_step(
    s: SessionState,
    key: Key,
    enrolled: bool,
    now: u64,
    threshold: Option<u64>,
    backend: Backend,
) -> (SessionState, Option<Output>) {
    match key.event() {
        Some(e) if enrolled => {
            let (entry, out) = latch_step(s.latch[key.id() as int], e, now, threshold);
            let s1 = SessionState { latch: s.latch.update(key.id() as int, Some(entry)), ..s };
            if out is Some {
                (applied(s1, key, backend), Some(encoded(key, backend)))
            } else {
                (s1, None)
            }
        },
        _ => (applied(s, key, backend), Some(encoded(key, backend))),
    }
}

/// A sequence of control updates, each with its enrollment, through a session: the
/// final state and the writes made, in order.
pub open spec fn keys_run(
    s: SessionState,
    keys: Seq<(Key, bool)>,
    now: u64,
    threshold: Option<u64>,
    backend: Backend,
) -> (SessionState, Seq<Output>)
    decreases keys.len(),
{
    if keys.len() == 0 {
        (s, Seq::empty())
    } else {
        let (mid, outs) = keys_run(s, keys.drop_last(), now, threshold, backend);
        let (next, o) = key_step(mid, keys.last().0, keys.last().1, now, threshold, backend);
        (
            next,
            match o {
                Some(w) => outs.push(w),
                None => outs,
            },
        )
    }
}

/// The control updates a message carries, each with whether it is enrolled in latching
/// (its identifier ends with `marker`). Unknown names carry none.
pub open spec fn message_keys(msg: Message, marker: Seq<char>) -> Seq<(Key, bool)> {
    match msg {
        Message::Dpad { id, button, state } => match dpad_of(button@, state) {
            Some(k) => seq![(k, has_suffix(id@, marker))],
            None => seq![],
        },
        Message::Joystick { id, x, y } => if id@ == "left"@ {
            seq![(Key::LeftJoystickX(x), false), (Key::LeftJoystickY(y), false)]
        } else if id@ == "right"@ {
            seq![(Key::RightJoystickX(x), false), (Key::RightJoystickY(y), false)]
        } else {
            seq![]
        },
        Message::Button { id, state } => match button_of(control_name(id@, marker), state) {
            Some(k) => seq![(k, has_suffix(id@, marker))],
            None => seq![],
        },
    }
}

/// Every sample a message carries is a proper fraction.
pub open spec fn message_wf(msg: Message) -> bool {
    match msg {
        Message::Joystick { x, y, .. } => x.wf() && y.wf(),
        _ => true,
    }
}

/// One client's session: its latch, its model of the device buffer, and its settings.
/// The device itself is driven by the caller, which performs the writes this type
/// returns and flushes after each message.
pub struct Controller {
    slot: u8,
    backend: Backend,
    threshold: Option<u64>,
    marker: String,
    latch: TapLatch,
    pending: Vec<Option<Output>>,
    shown: Vec<Option<Output>>,
}

impl Controller {
    pub closed spec fn view(&self) -> SessionState {
        SessionState { latch: self.latch.view(), pending: self.pending@, shown: self.shown@ }
    }

    /// The device slot this session holds.
    pub closed spec fn slot(&self) -> u8 {
        self.slot
    }

    pub closed spec fn backend(&self) -> Backend {
        self.backend
    }

    pub closed spec fn threshold(&self) -> Option<u64> {
        self.threshold
    }

    pub closed spec fn marker(&self) -> Seq<char> {
        self.marker@
    }

    pub open spec fn wf(&self) -> bool {
        self.view().wf()
    }

    /// A session for a device of kind `backend`, holding the lowest free slot of `pool`;
    /// `None`, with the pool unchanged, when every slot is taken. `threshold` is the
    /// double-tap window in milliseconds (`None` switches latching off); controls whose
    /// identifier ends with `marker` are enrolled in latching, and an empty marker enrolls
    /// them all.
    pub fn new(backend: Backend, threshold: Option<u64>, marker: String, pool: &mut SlotPool) -> (r:
        Option<Controller>)
        requires
            old(pool).view().len() <= 255,
        ensures
            match r {
                Some(c) => {
                    &&& is_first_free(old(pool).view(), c.slot() - 1)
                    &&& final(pool).view() == old(pool).view().update(c.slot() - 1, true)
                    &&& c.wf()
                    &&& c.backend() == backend
                    &&& c.threshold() == threshold
                    &&& c.marker() == marker@
                    &&& forall|i: int|
                        0 <= i < CONTROL_COUNT ==> (#[trigger] c.view().latch[i]) is None
                            && c.view().pending[i] is None && c.view().shown[i] is None
                },
                None => all_taken(old(pool).view()) && final(pool).view() == old(pool).view(),
            },
    {
        let slot = match pool.acquire() {
            Some(slot) => slot,
            None => return None,
        };
        let mut pending: Vec<Option<Output>> = Vec::new();
        let mut i: u8 = 0;
        while i < CONTROL_COUNT
            invariant
                i <= CONTROL_COUNT,
                pending@.len() == i as int,
                forall|j: int| 0 <= j < i ==> (#[trigger] pending@[j]) is None,
            decreases CONTROL_COUNT - i,
        {
            pending.push(None);
            i = i + 1;
        }
        let shown = pending.clone();
        assert(shown@ =~= pending@);
        Some(Controller { slot, backend, threshold, marker, latch: TapLatch::new(), pending, shown })
    }

    /// The device slot this session holds.
    pub fn device_slot(&self) -> (r: u8)
        ensures
            r == self.slot(),
    {
        self.slot
    }

    /// Ends the session, handing its slot back to `pool`; other slots keep their state.
    pub fn close(self, pool: &mut SlotPool)
        ensures
            if 1 <= self.slot() <= old(pool).view().len() {
                final(pool).view() == old(pool).view().update(self.slot() - 1, false)
            } else {
                final(pool).view() == old(pool).view()
            },
    {
        pool.release(self.slot);
    }

    /// Applies `key` to the device's buffer and returns the write that does so.
    pub fn write_input(&mut self, key: Key) -> (r: Output)
        requires
            old(self).wf(),
            key.wf(),
        ensures
            final(self).wf(),
            r == encoded(key, old(self).backend()),
            final(self).view() == applied(old(self).view(), key, old(self).backend()),
            final(self).backend() == old(self).backend(),
            final(self).threshold() == old(self).threshold(),
            final(self).marker() == old(self).marker(),
    {
        let out = encode(&key, self.backend);
        let id: u8 = key.into();
        self.pending.set(id as usize, Some(out));
        out
    }

    /// Routes one control update, arriving at time `now` (milliseconds): an enrolled
    /// digital control goes through the latch, anything else straight to the buffer.
    /// Returns the write made, if any.
    pub fn handle_key(&mut self, key: Key, enrolled: bool, now: u64) -> (r: Option<Output>)
        requires
            old(self).wf(),
            key.wf(),
        ensures
            final(self).wf(),
            ({
                let (s, o) = key_step(
                    old(self).view(),
                    key,
                    enrolled,
                    now,
                    old(self).threshold(),
                    old(self).backend(),
                );
                final(self).view() == s && r == o
            }),
            final(self).backend() == old(self).backend(),
            final(self).threshold() == old(self).threshold(),
            final(self).marker() == old(self).marker(),
    {
        let id: u8 = key.into();
        match key.key_event() {
            Some(e) if enrolled => {
                let out = self.latch.handle(id, *e, now, self.threshold);
                if out.is_some() {
                    Some(self.write_input(key))
                } else {
                    None
                }
            },
            _ => Some(self.write_input(key)),
        }
    }

    /// The latch entry of control `id`.
    pub fn latch_entry(&self, id: u8) -> (r: Option<LatchEntry>)
        requires
            self.wf(),
            id < CONTROL_COUNT,
        ensures
            r == self.view().latch[id as int],
    {
        self.latch.entry(id)
    }

    /// The last write applied to control `id`, visible or not.
    pub fn pending_write(&self, id: u8) -> (r: Option<Output>)
        requires
            self.wf(),
            id < CONTROL_COUNT,
        ensures
            r == self.view().pending[id as int],
    {
        self.pending[id as usize]
    }

    /// The write to control `id` that the device currently shows.
    pub fn shown_write(&self, id: u8) -> (r: Option<Output>)
        requires
            self.wf(),
            id < CONTROL_COUNT,
        ensures
            r == self.view().shown[id as int],
    {
        self.shown[id as usize]
    }

    /// Flushes the buffer: every applied write becomes visible at once.
    pub fn synchronize(&mut self)
        requires
            old(self).wf(),
        ensures
            final(self).wf(),
            final(self).view() == synced(old(self).view()),
            final(self).backend() == old(self).backend(),
            final(self).threshold() == old(self).threshold(),
            final(self).marker() == old(self).marker(),
    {
        self.shown = self.pending.clone();
        assert(self.shown@ =~= self.pending@);
    }
}

/// The control updates `msg` carries, each with whether it is enrolled in latching.
pub fn message_key_list(msg: &Message, marker: &str) -> (r: Vec<(Key, bool)>)
    ensures
        r@ == message_keys(*msg, marker@),
{
    let mut keys: Vec<(Key, bool)> = Vec::new();
    match msg {
        Message::Dpad { id, button, state } => {
            if let Some(k) = dpad_key(button.as_str(), *state) {
                keys.push((k, ends_with(id.as_str(), marker)));
            }
        },
        Message::Joystick { id, x, y } => {
            if same_text(id.as_str(), "left") {
                keys.push((Key::LeftJoystickX(*x), false));
                keys.push((Key::LeftJoystickY(*y), false));
            } else if same_text(id.as_str(), "right") {
                keys.push((Key::RightJoystickX(*x), false));
                keys.push((Key::RightJoystickY(*y), false));
            }
        },
        Message::Button { id, state } => {
            let name = strip_marker(id.as_str(), marker);
            if let Some(k) = button_key(name, *state) {
                keys.push((k, ends_with(id.as_str(), marker)));
            }
        },
    }
    assert(keys@ =~= message_keys(*msg, marker@));
    keys
}

impl Controller {
    /// Handles one client message arriving at time `now` (milliseconds): each control
    /// update it carries is routed as `handle_key` does, and the buffer is then flushed,
    /// once per message. Returns the writes, in order, that the caller performs on the
    /// device before flushing it. Unknown names are dropped without a write.
    #[verifier::rlimit(60)]
    pub fn handle_message(&mut self, msg: &Message, now: u64) -> (r: Vec<Output>)
        requires
            old(self).wf(),
            message_wf(*msg),
        ensures
            final(self).wf(),
            ({
                let (s, outs) = keys_run(
                    old(self).view(),
                    message_keys(*msg, old(self).marker()),
                    now,
                    old(self).threshold(),
                    old(self).backend(),
                );
                final(self).view() == synced(s) && r@ == outs
            }),
            final(self).backend() == old(self).backend(),
            final(self).threshold() == old(self).threshold(),
            final(self).marker() == old(self).marker(),
    {
        let keys = message_key_list(msg, self.marker.as_str());
        let ghost start = self.view();
        let mut outs: Vec<Output> = Vec::new();
        let mut i: usize = 0;
        while i < keys.len()
            invariant
                keys@ == message_keys(*msg, old(self).marker()),
                message_wf(*msg),
                i <= keys@.len(),
                self.wf(),
                self.backend() == old(self).backend(),
                self.threshold() == old(self).threshold(),
                self.marker() == old(self).marker(),
                start == old(self).view(),
                ({
                    let (s, o) = keys_run(start, keys@.take(i as int), now, self.threshold(), self.backend());
                    self.view() == s && outs@ == o
                }),
            decreases keys@.len() - i,
        {
            let (key, enrolled) = keys[i];
            assert(key.wf());
            let out = self.handle_key(key, enrolled, now);
            assert(keys@.take(i as int + 1).drop_last() =~= keys@.take(i as int));
            if let Some(w) = out {
                outs.push(w);
            }
            i = i + 1;
        }
        assert(keys@.take(keys@.len() as int) =~= keys@);
        self.synchronize();
        outs
    }
}

/// Controls that are not enrolled bypass the latch: each update gives exactly one
/// write, the update itself encoded (a digital control keeps its edge), in order, and
/// the latch is left untouched.
pub proof fn lemma_unenrolled_pass_through(
    s: SessionState,
    keys: Seq<(Key, bool)>,
    now: u64,
    threshold: Option<u64>,
    backend: Backend,
)
    requires
        forall|i: int| 0 <= i < keys.len() ==> !(#[trigger] keys[i]).1,
    ensures
        keys_run(s, keys, now, threshold, backend).1 == keys.map_values(
            |p: (Key, bool)| encoded(p.0, backend),
        ),
        keys_run(s, keys, now, threshold, backend).0.latch == s.latch,
        forall|i: int|
            0 <= i < keys.len() && (#[trigger] keys[i]).0.event() is Some ==> encoded(
                keys[i].0,
                backend,
            ) == (Output::Button {
                code: crate::encode::code_of(keys[i].0, backend),
                pressed: keys[i].0.event() == Some(KeyEvent::Press),
            }),
    decreases keys.len(),
{
    if keys.len() > 0 {
        let prefix = keys.drop_last();
        assert forall|i: int| 0 <= i < prefix.len() implies !(#[trigger] prefix[i]).1 by {
            assert(keys[i].1 == prefix[i].1);
        }
        lemma_unenrolled_pass_through(s, prefix, now, threshold, backend);
        assert(!keys[keys.len() - 1].1);
        assert(keys.map_values(|p: (Key, bool)| encoded(p.0, backend)) =~= prefix.map_values(
            |p: (Key, bool)| encoded(p.0, backend),
        ).push(encoded(keys.last().0, backend)));
    }
}

/// With latching switched off, every control update of a session, enrolled or not,
/// gives exactly one write, the update itself encoded, in order; a control that was not
/// `Held` never becomes `Held`.
pub proof fn lemma_disabled_session_passes_through(
    s: SessionState,
    keys: Seq<(Key, bool)>,
    now: u64,
    backend: Backend,
)
    requires
        s.wf(),
    ensures
        keys_run(s, keys, now, None, backend).1 == keys.map_values(
            |p: (Key, bool)| encoded(p.0, backend),
        ),
        keys_run(s, keys, now, None, backend).0.latch.len() == s.latch.len(),
        forall|i: int|
            0 <= i < s.latch.len() && !(#[trigger] s.latch[i] matches Some(en) && en.state
                == KeyState::Held) ==> !(keys_run(s, keys, now, None, backend).0.latch[i] matches Some(
                en,
            ) && en.state == KeyState::Held),
    decreases keys.len(),
{
    if keys.len() > 0 {
        let prefix = keys.drop_last();
        lemma_disabled_session_passes_through(s, prefix, now, backend);
        let mid = keys_run(s, prefix, now, None, backend).0;
        let last = keys_run(s, keys, now, None, backend).0;
        let k = keys.last().0;
        assert(k.id() < CONTROL_COUNT);
        assert forall|i: int|
            0 <= i < s.latch.len() && !(#[trigger] s.latch[i] matches Some(en) && en.state
                == KeyState::Held) implies !(last.latch[i] matches Some(en) && en.state
            == KeyState::Held) by {
            if i != k.id() as int {
                assert(last.latch[i] == mid.latch[i]);
            }
        }
        assert(keys.map_values(|p: (Key, bool)| encoded(p.0, backend)) =~= prefix.map_values(
            |p: (Key, bool)| encoded(p.0, backend),
        ).push(encoded(keys.last().0, backend)));
    }
}

/// Flushing is idempotent: a second flush with nothing applied since the first changes
/// nothing, and a flush with nothing pending leaves what the device shows as it was.
pub proof fn lemma_flush_idempotent(s: SessionState)
    ensures
        synced(synced(s)) == synced(s),
        s.pending == s.shown ==> synced(s) == s,
{
}

} // verus!
