//! Keys, directions and key events as plain values.

use vstd::prelude::*;

verus! {

/// A key of the virtual keyboard.
#[derive(Clone, Copy, Debug, PartialEq, Eq, Hash, Structural)]
pub enum Key {
    /// The Control key.
    Control,
    /// The Meta key: Command on macOS, the Super or Windows key elsewhere.
    Meta,
    /// The key that produces the given character on the active layout.
    Unicode(char),
}

/// What happens to a key in one event.
#[derive(Clone, Copy, Debug, PartialEq, Eq, Hash, Structural)]
pub enum Direction {
    /// The key goes down and stays down.
    Press,
    /// The key comes up.
    Release,
    /// The key goes down and comes up again at once.
    Click,
}

/// One synthetic keyboard event: a key and what happens to it.
#[derive(Clone, Copy, Debug, PartialEq, Eq, Hash, Structural)]
pub struct KeyEvent {
    pub key: Key,
    pub direction: Direction,
}

} // verus!
