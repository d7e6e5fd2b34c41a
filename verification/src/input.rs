//! Decoded keyboard input as the applications receive it.
use vstd::prelude::*;

verus! {

/// The non-character keys the applications react to; every other key is `Other`.
#[derive(Debug, Clone, Copy, PartialEq, Eq, Structural)]
pub enum KeyCode {
    ArrowUp,
    ArrowDown,
    ArrowLeft,
    ArrowRight,
    Backspace,
    LControl,
    RControl,
    Other,
}

/// A decoded key press: a character, or a key without one.
#[derive(Debug, Clone, Copy, PartialEq, Eq, Structural)]
pub enum DecodedKey {
    Unicode(char),
    RawKey(KeyCode),
}

} // verus!
