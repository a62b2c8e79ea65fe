//! Input events as the library sees them.
//!
//! The terminal backend delivers its own event values; the surrounding
//! program translates each of them into one of these plain variants before
//! handing it to the library, so that the routing logic can be verified.

use vstd::prelude::*;

verus! {

/// The keys the application distinguishes. Any other key press maps to
/// `Other`.
#[derive(Clone, Copy, PartialEq, Eq, Structural, Debug)]
pub enum Key {
    Left,
    Right,
    Up,
    Down,
    Char(char),
    Other,
}

/// One input event. Only key presses are significant; key releases, key
/// repeats and every non-keyboard event map to `NonPress`.
#[derive(Clone, Copy, PartialEq, Eq, Structural, Debug)]
pub enum InputEvent {
    KeyPress(Key),
    NonPress,
}

} // verus!
