//! What the players do during one frame.

use vstd::prelude::*;

verus! {

/// The keys of one frame: which of the four paddle keys are held down, and
/// whether the launch key and the back key were let go.
#[derive(Clone, Copy, Debug, PartialEq, Eq, Structural)]
pub struct Keys {
    /// Left paddle up.
    pub s: bool,
    /// Left paddle down.
    pub x: bool,
    /// Right paddle up.
    pub p: bool,
    /// Right paddle down.
    pub l: bool,
    /// The space bar was let go: serve.
    pub space_released: bool,
    /// The escape key was let go: back to the menu.
    pub escape_released: bool,
}

impl Keys {
    /// No key is held and none was let go.
    pub open spec fn spec_idle() -> Keys {
        Keys { s: false, x: false, p: false, l: false, space_released: false, escape_released: false }
    }

    /// No key is held and none was let go.
    #[verifier::when_used_as_spec(spec_idle)]
    pub fn idle() -> (keys: Keys)
        ensures
            keys == Keys::spec_idle(),
    {
        Keys { s: false, x: false, p: false, l: false, space_released: false, escape_released: false }
    }
}

/// The way a paddle is asked to go: `1` for up, `-1` for down, `0` where
/// neither key or both are held.
pub open spec fn key_direction(up: bool, down: bool) -> int {
    (if up { 1int } else { 0int }) - (if down { 1int } else { 0int })
}

/// Computes [`key_direction`].
pub fn key_direction_exec(up: bool, down: bool) -> (direction: i32)
    ensures
        direction == key_direction(up, down),
{
    let mut direction: i32 = 0;
    if up {
        direction = direction + 1;
    }
    if down {
        direction = direction - 1;
    }
    direction
}

} // verus!
