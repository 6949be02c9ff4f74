//! Joystick events. Joysticks are not supported for now.

use vstd::prelude::*;

verus! {

/// A joystick event.
/// Joysticks are not supported for now.
#[derive(Clone, Copy, Debug, PartialEq, Eq, Structural)]
pub enum JoystickEvent {
    /// A joystick has been connected
    JoystickConnected(),
    /// A joystick has been disconnected
    JoystickDisonnected(),
    /// A joystick moved
    JoystickMove(),
    /// A button has been pressed
    JoystickButton(),
}

} // verus!
