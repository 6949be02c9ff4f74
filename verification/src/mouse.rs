//! Mouse events and the global mouse-state tracker.
//!
//! The tracker is a snapshot of "is this button currently down" and "where
//! is the pointer", kept current by host listeners. The host side owns one
//! tracker value for the whole process and calls [`apply_mouse_update`]
//! from each listener; readers use [`is_pressed`], [`get_mouse_position`]
//! and [`is_mouse_in_canvas`]. Each field is updated independently, so a
//! reader may see a new position together with an old button state; no
//! cross-field consistency is promised.

use vstd::prelude::*;

verus! {

/// An event related to the mouse.
#[derive(Clone, Copy, Debug, PartialEq, Eq, Structural)]
pub enum MouseEvent {
    Click(Button, u32, u32),
    DoubleClick(Button, u32, u32),
    Move(u32, u32),
    Enter(u32, u32),
    Leave(u32, u32),
    Up(Button, u32, u32),
    Down(Button, u32, u32),
}

/// An enum representing a mouse button.
#[derive(Clone, Copy, Debug, PartialEq, Eq, Structural)]
pub enum Button {
    /// Main button, usually the left button or the un-initialized state
    Main,
    /// Auxiliary button, usually the wheel button or the middle button (if present)
    Auxiliary,
    /// Secondary button, usually the right button
    Secondary,
    /// Fourth button, typically the Browser Back button
    Fourth,
    /// Fifth button, typically the Browser Forward button
    Fifth,
}

impl Button {
    /// Read a button from the number the host reports. Numbers 0 to 4 are
    /// accepted and all name the main button; any other number is returned
    /// as the error.
    pub fn try_from(number: i16) -> (r: Result<Button, i16>)
        ensures
            0 <= number <= 4 ==> r == Ok::<Button, i16>(Button::Main),
            !(0 <= number <= 4) ==> r == Err::<Button, i16>(number),
    {
        match number {
            0 => Ok(Button::Main),
            1 => Ok(Button::Main),
            2 => Ok(Button::Main),
            3 => Ok(Button::Main),
            4 => Ok(Button::Main),
            n => Err(n),
        }
    }
}

/// The number the host uses for a button.
pub open spec fn button_number(b: Button) -> i16 {
    match b {
        Button::Main => 0,
        Button::Auxiliary => 1,
        Button::Secondary => 2,
        Button::Fourth => 3,
        Button::Fifth => 4,
    }
}

/// The process-wide snapshot of mouse state: one flag per button, whether
/// the pointer is inside the tab, and the last known position.
#[derive(Clone, Copy, Debug, PartialEq, Eq, Structural)]
pub struct MouseTracker {
    /// Whether listeners have been installed for this tracker.
    pub recording: bool,
    /// Whether the main button is down.
    pub main: bool,
    /// Whether the auxiliary button is down.
    pub auxiliary: bool,
    /// Whether the secondary button is down.
    pub secondary: bool,
    /// Whether the fourth button is down.
    pub fourth: bool,
    /// Whether the fifth button is down.
    pub fifth: bool,
    /// Whether the pointer is inside the tab.
    pub in_canvas: bool,
    /// The x coordinate the host last reported.
    pub x: u32,
    /// The y coordinate the host last reported.
    pub y: u32,
}

/// The state a tracker starts in: nothing recorded yet, no button down,
/// the pointer assumed inside the tab, position (0,0).
pub open spec fn initial_tracker() -> MouseTracker {
    MouseTracker {
        recording: false,
        main: false,
        auxiliary: false,
        secondary: false,
        fourth: false,
        fifth: false,
        in_canvas: true,
        x: 0u32,
        y: 0u32,
    }
}

/// One notification from a host mouse listener, as the tracker sees it.
#[derive(Clone, Copy, Debug, PartialEq, Eq, Structural)]
pub enum MouseUpdate {
    /// The button with this host number went down.
    ButtonDown(i16),
    /// The button with this host number went up.
    ButtonUp(i16),
    /// The pointer entered the tab.
    EnterCanvas,
    /// The pointer left the tab.
    LeaveCanvas,
    /// The pointer moved to this position.
    MoveTo(u32, u32),
}

/// Set one button flag of `t` by the host's button number. A number no
/// button answers to changes nothing.
pub open spec fn spec_set_button(t: MouseTracker, number: i16, down: bool) -> MouseTracker {
    if number == 0 {
        MouseTracker { main: down, ..t }
    } else if number == 1 {
        MouseTracker { auxiliary: down, ..t }
    } else if number == 2 {
        MouseTracker { secondary: down, ..t }
    } else if number == 3 {
        MouseTracker { fourth: down, ..t }
    } else if number == 4 {
        MouseTracker { fifth: down, ..t }
    } else {
        t
    }
}

/// What one host notification does to the tracker.
pub open spec fn spec_apply_update(t: MouseTracker, u: MouseUpdate) -> MouseTracker {
    match u {
        MouseUpdate::ButtonDown(number) => spec_set_button(t, number, true),
        MouseUpdate::ButtonUp(number) => spec_set_button(t, number, false),
        MouseUpdate::EnterCanvas => MouseTracker { in_canvas: true, ..t },
        MouseUpdate::LeaveCanvas => MouseTracker { in_canvas: false, ..t },
        MouseUpdate::MoveTo(x, y) => MouseTracker { x, y, ..t },
    }
}

/// Whether an update names a button number no button answers to.
pub open spec fn spec_unknown_button(u: MouseUpdate) -> bool {
    match u {
        MouseUpdate::ButtonDown(number) => !(0 <= number <= 4),
        MouseUpdate::ButtonUp(number) => !(0 <= number <= 4),
        _ => false,
    }
}

/// The flag of the tracker that answers for a button.
pub open spec fn spec_pressed(t: MouseTracker, button: Button) -> bool {
    match button {
        Button::Main => t.main,
        Button::Auxiliary => t.auxiliary,
        Button::Secondary => t.secondary,
        Button::Fourth => t.fourth,
        Button::Fifth => t.fifth,
    }
}

/// Starting the recording marks the tracker as recording and changes
/// nothing else.
pub open spec fn spec_start_recording(t: MouseTracker) -> MouseTracker {
    MouseTracker { recording: true, ..t }
}

impl MouseTracker {
    /// A fresh tracker, before any listener ran.
    pub fn new() -> (t: MouseTracker)
        ensures
            t == initial_tracker(),
    {
        MouseTracker {
            recording: false,
            main: false,
            auxiliary: false,
            secondary: false,
            fourth: false,
            fifth: false,
            in_canvas: true,
            x: 0,
            y: 0,
        }
    }
}

/// Return true if the recording of mouse events has already been started
/// for this tracker.
pub fn are_mouse_events_recorded(t: &MouseTracker) -> (r: bool)
    ensures
        r == t.recording,
{
    t.recording
}

/// Return false if the mouse is outside the tab. Meaningful only once
/// recording has been started.
pub fn is_mouse_in_canvas(t: &MouseTracker) -> (r: bool)
    ensures
        r == t.in_canvas,
{
    t.in_canvas
}

/// Start recording mouse events for this tracker; this cannot be stopped.
/// The first call marks the tracker as recording and returns true, telling
/// the host side to install its listeners. Any later call changes nothing
/// and returns false, telling the host side to warn instead of installing
/// listeners a second time.
pub fn start_recording_mouse_events(t: &mut MouseTracker) -> (installed: bool)
    ensures
        installed == !old(t).recording,
        *final(t) == spec_start_recording(*old(t)),
{
    if !are_mouse_events_recorded(t) {
        t.recording = true;
        true
    } else {
        false
    }
}

/// Apply one host notification to the tracker. Returns false when the
/// notification named a button number no button answers to, so that the
/// host side can report the unknown button; the tracker is unchanged then.
pub fn apply_mouse_update(t: &mut MouseTracker, u: MouseUpdate) -> (known: bool)
    ensures
        *final(t) == spec_apply_update(*old(t), u),
        known == !spec_unknown_button(u),
{
    match u {
        MouseUpdate::ButtonDown(number) => match number {
            0 => {
                t.main = true;
                true
            },
            1 => {
                t.auxiliary = true;
                true
            },
            2 => {
                t.secondary = true;
                true
            },
            3 => {
                t.fourth = true;
                true
            },
            4 => {
                t.fifth = true;
                true
            },
            _ => false,
        },
        MouseUpdate::ButtonUp(number) => match number {
            0 => {
                t.main = false;
                true
            },
            1 => {
                t.auxiliary = false;
                true
            },
            2 => {
                t.secondary = false;
                true
            },
            3 => {
                t.fourth = false;
                true
            },
            4 => {
                t.fifth = false;
                true
            },
            _ => false,
        },
        MouseUpdate::EnterCanvas => {
            t.in_canvas = true;
            true
        },
        MouseUpdate::LeaveCanvas => {
            t.in_canvas = false;
            true
        },
        MouseUpdate::MoveTo(x, y) => {
            t.x = x;
            t.y = y;
            true
        },
    }
}

/// Return true if the button of the mouse is currently pressed. Meaningful
/// only once recording has been started.
pub fn is_pressed(t: &MouseTracker, button: Button) -> (r: bool)
    ensures
        r == spec_pressed(*t, button),
{
    match button {
        Button::Main => t.main,
        Button::Auxiliary => t.auxiliary,
        Button::Secondary => t.secondary,
        Button::Fourth => t.fourth,
        Button::Fifth => t.fifth,
    }
}

/// Return the current position of the mouse. Meaningful only once
/// recording has been started.
pub fn get_mouse_position(t: &MouseTracker) -> (r: (u32, u32))
    ensures
        r == (t.x, t.y),
{
    (t.x, t.y)
}

/// Starting the recording twice leaves the tracker exactly as one start
/// left it: no second set of listeners, no other change.
pub proof fn lemma_start_recording_idempotent(t: MouseTracker)
    ensures
        spec_start_recording(spec_start_recording(t)) == spec_start_recording(t),
        t.recording ==> spec_start_recording(t) == t,
{
}

/// A "down" notification for a button's number makes exactly that button
/// pressed and leaves every other button as it was; a later "up"
/// notification for the same number releases exactly that button.
pub proof fn lemma_down_up_set_one_button(t: MouseTracker, number: i16, button: Button)
    requires
        0 <= number <= 4,
    ensures
        spec_pressed(spec_apply_update(t, MouseUpdate::ButtonDown(number)), button) == (
        button_number(button) == number || spec_pressed(t, button)),
        spec_pressed(spec_apply_update(t, MouseUpdate::ButtonUp(number)), button) == (
        button_number(button) != number && spec_pressed(t, button)),
{
}

/// A move notification sets exactly the reported position; buttons and the
/// in-tab flag keep their values.
pub proof fn lemma_move_sets_position(t: MouseTracker, x: u32, y: u32)
    ensures
        spec_apply_update(t, MouseUpdate::MoveTo(x, y)) == (MouseTracker { x, y, ..t }),
{
}

} // verus!
