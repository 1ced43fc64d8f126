//! Plain-value models of the terminal events the runtime reacts to.
//!
//! The event source adapter turns whatever its backend produces into
//! these types before anything here looks at it.

use vstd::prelude::*;

verus! {

/// The key itself, reduced to the keys the runtime distinguishes.
#[derive(Clone, Copy, Debug, PartialEq, Eq, Structural)]
pub enum KeyCode {
    Char(char),
    Enter,
    Esc,
    Backspace,
    Left,
    Right,
    Up,
    Down,
    Tab,
    Other,
}

/// Modifier state of a key press, reduced to the combinations the runtime
/// distinguishes.
#[derive(Clone, Copy, Debug, PartialEq, Eq, Structural)]
pub enum KeyMods {
    Plain,
    Shift,
    Control,
    Alt,
    Mixed,
}

/// Whether the event reports a press, a repeat or a release.
#[derive(Clone, Copy, Debug, PartialEq, Eq, Structural)]
pub enum KeyKind {
    Press,
    Repeat,
    Release,
}

/// One keyboard event.
#[derive(Clone, Copy, Debug, PartialEq, Eq, Structural)]
pub struct Key {
    pub code: KeyCode,
    pub mods: KeyMods,
    pub kind: KeyKind,
}

impl Key {
    /// A plain press of the given key with no modifiers.
    pub fn press(code: KeyCode) -> (k: Key)
        ensures
            k == (Key { code, mods: KeyMods::Plain, kind: KeyKind::Press }),
    {
        Key { code, mods: KeyMods::Plain, kind: KeyKind::Press }
    }
}

/// One event from the external event source.
#[derive(Clone, Copy, Debug, PartialEq, Eq, Structural)]
pub enum Event {
    Quit,
    Tick,
    Render,
    Key(Key),
    Mouse,
    Resize(u16, u16),
    Other,
}

/// Element-wise comparison of two key sequences.
pub fn key_seq_eq(a: &Vec<Key>, b: &Vec<Key>) -> (r: bool)
    ensures
        r == (a@ =~= b@),
{
    if a.len() != b.len() {
        return false;
    }
    let mut i: usize = 0;
    while i < a.len()
        invariant
            i <= a.len(),
            a.len() == b.len(),
            forall|j: int| 0 <= j < i ==> a@[j] == b@[j],
        decreases a.len() - i,
    {
        if a[i] != b[i] {
            return false;
        }
        i = i + 1;
    }
    true
}

} // verus!
