//! Keyboard events, carrying the key code the host reports.

use vstd::prelude::*;

verus! {

/// An event related to the keyboard. The payload is the host's key code.
#[derive(Clone, Copy, Debug, PartialEq, Eq, Structural)]
pub enum KeyboardEvent {
    /// A key with this code was released.
    Up(u32),
    /// A key with this code was pressed.
    Down(u32),
}

} // verus!
