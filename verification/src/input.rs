//! The discrete key presses the core reacts to; every other key is
//! filtered out by the host before it reaches the library.

use vstd::prelude::*;

verus! {

/// A key press delivered to the active screen.
#[derive(Clone, Copy, PartialEq, Eq, Structural, Debug)]
pub enum Key {
    Up,
    Down,
    Left,
    Right,
    Enter,
}

} // verus!
