//! Key codes, the character-to-key mapping, and edge-triggered key
//! detection.
//!
//! A key press counts only on the frame it appears: the detector
//! compares the current held-key snapshot with the previous frame's
//! snapshot and reports the first key that is newly held, so a key held
//! across frames is never re-reported.

use vstd::prelude::*;

verus! {

/// The keys the game reacts to: the characters that words are made of,
/// and the menu-navigation keys.
#[derive(Copy, Clone, Debug, PartialEq, Eq, Hash, Structural)]
pub enum Key {
    Key0,
    Key1,
    Key2,
    Key3,
    Key4,
    Key5,
    Key6,
    Key7,
    Key8,
    Key9,
    A,
    B,
    C,
    D,
    E,
    F,
    G,
    H,
    I,
    J,
    K,
    L,
    M,
    N,
    O,
    P,
    Q,
    R,
    S,
    T,
    U,
    V,
    W,
    X,
    Y,
    Z,
    Up,
    Down,
    Enter,
    Escape,
}

/// The key a character is typed with: defined exactly for the lowercase
/// letters and the digits.
pub open spec fn spec_key_for_char(ch: char) -> Option<Key> {
    match ch {
        '0' => Some(Key::Key0),
        '1' => Some(Key::Key1),
        '2' => Some(Key::Key2),
        '3' => Some(Key::Key3),
        '4' => Some(Key::Key4),
        '5' => Some(Key::Key5),
        '6' => Some(Key::Key6),
        '7' => Some(Key::Key7),
        '8' => Some(Key::Key8),
        '9' => Some(Key::Key9),
        'a' => Some(Key::A),
        'b' => Some(Key::B),
        'c' => Some(Key::C),
        'd' => Some(Key::D),
        'e' => Some(Key::E),
        'f' => Some(Key::F),
        'g' => Some(Key::G),
        'h' => Some(Key::H),
        'i' => Some(Key::I),
        'j' => Some(Key::J),
        'k' => Some(Key::K),
        'l' => Some(Key::L),
        'm' => Some(Key::M),
        'n' => Some(Key::N),
        'o' => Some(Key::O),
        'p' => Some(Key::P),
        'q' => Some(Key::Q),
        'r' => Some(Key::R),
        's' => Some(Key::S),
        't' => Some(Key::T),
        'u' => Some(Key::U),
        'v' => Some(Key::V),
        'w' => Some(Key::W),
        'x' => Some(Key::X),
        'y' => Some(Key::Y),
        'z' => Some(Key::Z),
        _ => None,
    }
}

pub fn ch_to_keycode(ch: char) -> (r: Option<Key>)
    ensures
        r == spec_key_for_char(ch),
{
    match ch {
        '0' => Some(Key::Key0),
        '1' => Some(Key::Key1),
        '2' => Some(Key::Key2),
        '3' => Some(Key::Key3),
        '4' => Some(Key::Key4),
        '5' => Some(Key::Key5),
        '6' => Some(Key::Key6),
        '7' => Some(Key::Key7),
        '8' => Some(Key::Key8),
        '9' => Some(Key::Key9),
        'a' => Some(Key::A),
        'b' => Some(Key::B),
        'c' => Some(Key::C),
        'd' => Some(Key::D),
        'e' => Some(Key::E),
        'f' => Some(Key::F),
        'g' => Some(Key::G),
        'h' => Some(Key::H),
        'i' => Some(Key::I),
        'j' => Some(Key::J),
        'k' => Some(Key::K),
        'l' => Some(Key::L),
        'm' => Some(Key::M),
        'n' => Some(Key::N),
        'o' => Some(Key::O),
        'p' => Some(Key::P),
        'q' => Some(Key::Q),
        'r' => Some(Key::R),
        's' => Some(Key::S),
        't' => Some(Key::T),
        'u' => Some(Key::U),
        'v' => Some(Key::V),
        'w' => Some(Key::W),
        'x' => Some(Key::X),
        'y' => Some(Key::Y),
        'z' => Some(Key::Z),
        _ => None,
    }
}

/// The first key of `current` that is not held in `previous`, if any:
/// the single newly pressed key this frame.
pub open spec fn spec_first_new_key(current: Seq<Key>, previous: Seq<Key>) -> Option<Key>
    decreases current.len(),
{
    if current.len() == 0 {
        None
    } else if !previous.contains(current[0]) {
        Some(current[0])
    } else {
        spec_first_new_key(current.drop_first(), previous)
    }
}

/// Whether a key set holds `k`.
pub fn keys_contain(keys: &Vec<Key>, k: Key) -> (r: bool)
    ensures
        r == keys@.contains(k),
{
    let n = keys.len();
    let mut i: usize = 0;
    while i < n
        invariant
            0 <= i <= n,
            n == keys@.len(),
            forall|j: int| 0 <= j < i ==> keys@[j] != k,
        decreases n - i,
    {
        if keys[i] == k {
            return true;
        }
        i = i + 1;
    }
    false
}

/// Edge detection over two held-key snapshots.
pub fn first_new_key(current: &Vec<Key>, previous: &Vec<Key>) -> (r: Option<Key>)
    ensures
        r == spec_first_new_key(current@, previous@),
{
    proof {
        assert(current@.skip(0) =~= current@);
    }
    let n = current.len();
    let mut i: usize = 0;
    while i < n
        invariant
            0 <= i <= n,
            n == current@.len(),
            spec_first_new_key(current@, previous@) == spec_first_new_key(
                current@.skip(i as int),
                previous@,
            ),
        decreases n - i,
    {
        let k = current[i];
        if !keys_contain(previous, k) {
            proof {
                assert(current@.skip(i as int)[0] == k);
            }
            return Some(k);
        }
        proof {
            assert(current@.skip(i as int)[0] == k);
            assert(current@.skip(i as int).drop_first() =~= current@.skip(i + 1));
        }
        i = i + 1;
    }
    proof {
        assert(current@.skip(i as int).len() == 0);
    }
    None
}

/// The detected key is always a newly pressed one: it is held now, was
/// not held on the previous frame, and when every held key was already
/// held before, nothing is reported.
pub proof fn lemma_edge_detection(current: Seq<Key>, previous: Seq<Key>)
    ensures
        spec_first_new_key(current, previous) matches Some(k) ==> current.contains(k)
            && !previous.contains(k),
        spec_first_new_key(current, previous) is None <==> (forall|i: int|
            0 <= i < current.len() ==> previous.contains(#[trigger] current[i])),
    decreases current.len(),
{
    if current.len() > 0 {
        let tail = current.drop_first();
        lemma_edge_detection(tail, previous);
        assert(forall|i: int| 0 <= i < tail.len() ==> #[trigger] tail[i] == current[i + 1]);
        if previous.contains(current[0]) {
            if spec_first_new_key(current, previous) is Some {
                let k = spec_first_new_key(current, previous)->Some_0;
                assert(tail.contains(k));
                let w = choose|w: int| 0 <= w < tail.len() && tail[w] == k;
                assert(current[w + 1] == k);
            } else {
                assert forall|i: int| 0 <= i < current.len() implies previous.contains(
                    #[trigger] current[i],
                ) by {
                    if i > 0 {
                        assert(tail[i - 1] == current[i]);
                        assert(previous.contains(tail[i - 1]));
                    }
                }
            }
            if forall|i: int| 0 <= i < current.len() ==> previous.contains(#[trigger] current[i]) {
                assert forall|j: int| 0 <= j < tail.len() implies previous.contains(
                    #[trigger] tail[j],
                ) by {
                    assert(tail[j] == current[j + 1]);
                    assert(previous.contains(current[j + 1]));
                }
                assert(spec_first_new_key(tail, previous) is None);
            }
        } else {
            assert(!previous.contains(current[0]));
        }
    }
}

} // verus!
