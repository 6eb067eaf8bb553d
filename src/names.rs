use vstd::prelude::*;
use vstd::string::*;

use crate::keys::Key;
use crate::message::KeyEvent;

verus! {

/// `s` ends with `suffix`.
pub open spec fn has_suffix(s: Seq<char>, suffix: Seq<char>) -> bool {
    suffix.len() <= s.len() && s.subrange(s.len() - suffix.len(), s.len() as int) == suffix
}

/// `m` occurs in `s` starting at index `i`.
pub open spec fn occurs_at(s: Seq<char>, m: Seq<char>, i: int) -> bool {
    0 <= i && i + m.len() <= s.len() && s.subrange(i, i + m.len()) == m
}

/// The index where `m` first occurs in `s`.
pub open spec fn first_occurrence(s: Seq<char>, m: Seq<char>) -> int {
    choose|i: int| occurs_at(s, m, i) && forall|j: int| 0 <= j < i ==> !occurs_at(s, m, j)
}

/// The name of the control an identifier refers to: the text before the first
/// occurrence of the enrollment marker, or the whole identifier when the marker is empty
/// or does not occur.
pub open spec fn control_name(id: Seq<char>, marker: Seq<char>) -> Seq<char> {
    if marker.len() > 0 && exists|i: int| occurs_at(id, marker, i) {
        id.subrange(0, first_occurrence(id, marker))
    } else {
        id
    }
}

/// The button named `name`, carrying edge `e`.
pub open spec fn button_of(name: Seq<char>, e: KeyEvent) -> Option<Key> {
    if name == "A"@ {
        Some(Key::A(e))
    } else if name == "B"@ {
        Some(Key::B(e))
    } else if name == "X"@ {
        Some(Key::X(e))
    } else if name == "Y"@ {
        Some(Key::Y(e))
    } else if name == "lb"@ {
        Some(Key::BumperLeft(e))
    } else if name == "lt"@ {
        Some(Key::TriggerLeft(e))
    } else if name == "rb"@ {
        Some(Key::BumperRight(e))
    } else if name == "rt"@ {
        Some(Key::TriggerRight(e))
    } else if name == "start"@ {
        Some(Key::Start(e))
    } else if name == "back"@ {
        Some(Key::Select(e))
    } else if name == "thumb_right"@ {
        Some(Key::ThumbRight(e))
    } else if name == "thumb_left"@ {
        Some(Key::ThumbLeft(e))
    } else {
        None
    }
}

/// The direction of the directional pad named `name`, carrying edge `e`.
pub open spec fn dpad_of(name: Seq<char>, e: KeyEvent) -> Option<Key> {
    if name == "LEFT"@ {
        Some(Key::DPadLeft(e))
    } else if name == "RIGHT"@ {
        Some(Key::DPadRight(e))
    } else if name == "UP"@ {
        Some(Key::DPadUp(e))
    } else if name == "DOWN"@ {
        Some(Key::DPadDown(e))
    } else {
        None
    }
}

/// Whether two strings hold the same characters.
pub fn same_text(a: &str, b: &str) -> (r: bool)
    ensures
        r == (a@ == b@),
{
    let n = a.unicode_len();
    if n != b.unicode_len() {
        return false;
    }
    let mut i: usize = 0;
    while i < n
        invariant
            n == a@.len(),
            n == b@.len(),
            i <= n,
            forall|j: int| 0 <= j < i ==> a@[j] == b@[j],
        decreases n - i,
    {
        if a.get_char(i) != b.get_char(i) {
            return false;
        }
        i = i + 1;
    }
    assert(a@ =~= b@);
    true
}

/// Whether `m` occurs in `s` starting at index `i`.
pub fn occurs_at_index(s: &str, m: &str, i: usize) -> (r: bool)
    ensures
        r == occurs_at(s@, m@, i as int),
{
    let n = s.unicode_len();
    let k = m.unicode_len();
    if k > n || i > n - k {
        return false;
    }
    let mut j: usize = 0;
    while j < k
        invariant
            n == s@.len(),
            k == m@.len(),
            i + k <= n,
            j <= k,
            forall|t: int| 0 <= t < j ==> s@[i + t] == m@[t],
        decreases k - j,
    {
        if s.get_char(i + j) != m.get_char(j) {
            assert(s@.subrange(i as int, i + k)[j as int] != m@[j as int]);
            return false;
        }
        j = j + 1;
    }
    assert(s@.subrange(i as int, i + k) =~= m@);
    true
}

/// Whether `s` ends with `suffix`.
pub fn ends_with(s: &str, suffix: &str) -> (r: bool)
    ensures
        r == has_suffix(s@, suffix@),
{
    let n = s.unicode_len();
    let k = suffix.unicode_len();
    if k > n {
        return false;
    }
    occurs_at_index(s, suffix, n - k)
}

/// The name of the control `id` refers to: the text before the first occurrence of
/// `marker`, or all of `id` when `marker` is empty or does not occur.
pub fn strip_marker<'a>(id: &'a str, marker: &str) -> (r: &'a str)
    ensures
        r@ == control_name(id@, marker@),
{
    let n = id.unicode_len();
    let k = marker.unicode_len();
    if k == 0 || k > n {
        proof {
            if k > 0 {
                assert(!exists|i: int| occurs_at(id@, marker@, i));
            }
        }
        return id;
    }
    let mut i: usize = 0;
    while i <= n - k
        invariant
            n == id@.len(),
            k == marker@.len(),
            0 < k <= n,
            i <= n - k + 1,
            forall|j: int| 0 <= j < i ==> !occurs_at(id@, marker@, j),
        decreases n - k + 1 - i,
    {
        if occurs_at_index(id, marker, i) {
            proof {
                assert(occurs_at(id@, marker@, i as int) && forall|j: int|
                    0 <= j < i ==> !occurs_at(id@, marker@, j));
                let f = first_occurrence(id@, marker@);
                assert(f == i) by {
                    if f < i {
                        assert(!occurs_at(id@, marker@, f));
                    } else if f > i {
                        assert(!occurs_at(id@, marker@, i as int));
                    }
                }
            }
            return id.substring_char(0, i);
        }
        i = i + 1;
    }
    proof {
        assert forall|j: int| !occurs_at(id@, marker@, j) by {
            if 0 <= j < i {
            }
        }
    }
    id
}

/// The button named `name`, carrying edge `e`; `None` for a name no button has.
pub fn button_key(name: &str, e: KeyEvent) -> (r: Option<Key>)
    ensures
        r == button_of(name@, e),
{
    if same_text(name, "A") {
        Some(Key::A(e))
    } else if same_text(name, "B") {
        Some(Key::B(e))
    } else if same_text(name, "X") {
        Some(Key::X(e))
    } else if same_text(name, "Y") {
        Some(Key::Y(e))
    } else if same_text(name, "lb") {
        Some(Key::BumperLeft(e))
    } else if same_text(name, "lt") {
        Some(Key::TriggerLeft(e))
    } else if same_text(name, "rb") {
        Some(Key::BumperRight(e))
    } else if same_text(name, "rt") {
        Some(Key::TriggerRight(e))
    } else if same_text(name, "start") {
        Some(Key::Start(e))
    } else if same_text(name, "back") {
        Some(Key::Select(e))
    } else if same_text(name, "thumb_right") {
        Some(Key::ThumbRight(e))
    } else if same_text(name, "thumb_left") {
        Some(Key::ThumbLeft(e))
    } else {
        None
    }
}

/// The directional-pad direction named `name`, carrying edge `e`; `None` for any other
/// name.
pub fn dpad_key(name: &str, e: KeyEvent) -> (r: Option<Key>)
    ensures
        r == dpad_of(name@, e),
{
    if same_text(name, "LEFT") {
        Some(Key::DPadLeft(e))
    } else if same_text(name, "RIGHT") {
        Some(Key::DPadRight(e))
    } else if same_text(name, "UP") {
        Some(Key::DPadUp(e))
    } else if same_text(name, "DOWN") {
        Some(Key::DPadDown(e))
    } else {
        None
    }
}

} // verus!
