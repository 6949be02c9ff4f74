//! Event recording: the queue that host listeners feed and the game drains.
//!
//! The host dispatches input notifications (mouse, keyboard, focus, resize)
//! to the listeners that a manager's `start_recording_*` calls installed.
//! Each notification becomes one [`Event`] at the back of the queue;
//! [`EventManager::next`] removes the oldest one without waiting. The host
//! side installs one listener per started category and calls
//! [`EventManager::deliver`] from it.

use vstd::prelude::*;

use std::collections::VecDeque;

use crate::joystick::JoystickEvent;
use crate::keyboard::KeyboardEvent;
use crate::mouse::Button;
use crate::mouse::MouseEvent;

verus! {

/// Events related to the mouse
pub const MOUSE_EVENT: u8 = 0b00000001;

/// Events related to the keyboard
pub const KEYBOARD_EVENT: u8 = 0b00000010;

/// Event fired when the size of the window change
pub const RESIZE_EVENT: u8 = 0b00000100;

/// Events fired when the window lost or gain focus
pub const FOCUS_EVENT: u8 = 0b00001000;

/// Joysticks are not supported for now
pub const JOYSTICK_EVENT: u8 = 0b00010000;

/// An enum containing more specific enums.
#[derive(Clone, Copy, Debug, PartialEq, Eq, Structural)]
pub enum Event {
    /// Event is a mouse event
    MouseEvent(MouseEvent),
    /// Event is a keyboard event
    KeyboardEvent(KeyboardEvent),
    /// The size of the window changed, contains the new size
    ResizeEvent(u32, u32),
    /// The window got or lost focus.
    /// The bool is set to true if the tab has the focus after the modification.
    FocusEvent(bool),
    /// Joysticks are unsupported
    JoystickEvent(JoystickEvent),
}

/// Which mouse listener the host fired.
#[derive(Clone, Copy, Debug, PartialEq, Eq, Structural)]
pub enum MouseAction {
    Click,
    DoubleClick,
    Down,
    Up,
    Enter,
    Leave,
    Move,
}

/// Which keyboard listener the host fired.
#[derive(Clone, Copy, Debug, PartialEq, Eq, Structural)]
pub enum KeyboardAction {
    Up,
    Down,
}

/// One input notification as the host delivers it to a listener.
#[derive(Clone, Copy, Debug, PartialEq, Eq, Structural)]
pub enum Notification {
    /// A mouse listener fired, with the button and the pointer position.
    Mouse(MouseAction, Button, u32, u32),
    /// A keyboard listener fired, with the key code.
    Keyboard(KeyboardAction, u32),
    /// The window was resized to this width and height.
    Resize(u32, u32),
    /// The window gained (true) or lost (false) focus.
    Focus(bool),
}

/// The mouse event a mouse listener records. Enter, leave and move carry
/// no button.
pub open spec fn mouse_event_of(a: MouseAction, button: Button, x: u32, y: u32) -> MouseEvent {
    match a {
        MouseAction::Click => MouseEvent::Click(button, x, y),
        MouseAction::DoubleClick => MouseEvent::DoubleClick(button, x, y),
        MouseAction::Down => MouseEvent::Down(button, x, y),
        MouseAction::Up => MouseEvent::Up(button, x, y),
        MouseAction::Enter => MouseEvent::Enter(x, y),
        MouseAction::Leave => MouseEvent::Leave(x, y),
        MouseAction::Move => MouseEvent::Move(x, y),
    }
}

/// The event one notification records.
pub open spec fn event_of(n: Notification) -> Event {
    match n {
        Notification::Mouse(a, button, x, y) => Event::MouseEvent(mouse_event_of(a, button, x, y)),
        Notification::Keyboard(KeyboardAction::Up, code) => Event::KeyboardEvent(
            KeyboardEvent::Up(code),
        ),
        Notification::Keyboard(KeyboardAction::Down, code) => Event::KeyboardEvent(
            KeyboardEvent::Down(code),
        ),
        Notification::Resize(width, height) => Event::ResizeEvent(width, height),
        Notification::Focus(focused) => Event::FocusEvent(focused),
    }
}

/// What an event manager is: its pending events, oldest first, and which
/// event categories it has installed listeners for.
#[verifier::ext_equal]
pub ghost struct EventManagerView {
    /// The pending events, oldest first.
    pub queue: Seq<Event>,
    /// Whether mouse listeners are installed.
    pub mouse: bool,
    /// Whether keyboard listeners are installed.
    pub keyboard: bool,
    /// Whether focus listeners are installed.
    pub focus: bool,
    /// Whether the resize listener is installed.
    pub size: bool,
}

/// Whether a manager has a listener installed for a notification's
/// category, so that the host would deliver it.
pub open spec fn accepts(v: EventManagerView, n: Notification) -> bool {
    match n {
        Notification::Mouse(_, _, _, _) => v.mouse,
        Notification::Keyboard(_, _) => v.keyboard,
        Notification::Resize(_, _) => v.size,
        Notification::Focus(_) => v.focus,
    }
}

/// What delivering one notification does to a manager: its event is
/// appended when the category is recorded, nothing happens otherwise.
pub open spec fn deliver_one(v: EventManagerView, n: Notification) -> EventManagerView {
    if accepts(v, n) {
        EventManagerView { queue: v.queue.push(event_of(n)), ..v }
    } else {
        v
    }
}

/// Delivering a sequence of notifications, oldest first.
pub open spec fn deliver_all(v: EventManagerView, ns: Seq<Notification>) -> EventManagerView
    decreases ns.len(),
{
    if ns.len() == 0 {
        v
    } else {
        deliver_all(deliver_one(v, ns[0]), ns.subrange(1, ns.len() as int))
    }
}

/// The struct which tracks events. Created empty and recording nothing;
/// host listeners feed it through [`EventManager::deliver`].
pub struct EventManager {
    events: VecDeque<Event>,
    mouse: bool,
    keyboard: bool,
    focus: bool,
    size: bool,
}

impl View for EventManager {
    type V = EventManagerView;

    closed spec fn view(&self) -> EventManagerView {
        EventManagerView {
            queue: self.events@,
            mouse: self.mouse,
            keyboard: self.keyboard,
            focus: self.focus,
            size: self.size,
        }
    }
}

impl EventManager {
    /// Create an event manager.
    /// It will not record events if you don't call the appropriate methods.
    pub fn new() -> (r: EventManager)
        ensures
            r@ == (EventManagerView {
                queue: Seq::<Event>::empty(),
                mouse: false,
                keyboard: false,
                focus: false,
                size: false,
            }),
    {
        let r = EventManager {
            events: VecDeque::new(),
            mouse: false,
            keyboard: false,
            focus: false,
            size: false,
        };
        proof {
            assert(r@ =~= EventManagerView {
                queue: Seq::<Event>::empty(),
                mouse: false,
                keyboard: false,
                focus: false,
                size: false,
            });
        }
        r
    }

    /// The event manager will start recording mouse events.
    /// This can't be stopped!
    pub fn start_recording_mouse_events(&mut self)
        ensures
            final(self)@ == (EventManagerView { mouse: true, ..old(self)@ }),
    {
        self.mouse = true;
        proof {
            assert(self@ =~= EventManagerView { mouse: true, ..old(self)@ });
        }
    }

    /// The event manager will start recording keyboard events.
    /// This can't be stopped!
    pub fn start_recording_keyboard_events(&mut self)
        ensures
            final(self)@ == (EventManagerView { keyboard: true, ..old(self)@ }),
    {
        self.keyboard = true;
        proof {
            assert(self@ =~= EventManagerView { keyboard: true, ..old(self)@ });
        }
    }

    /// The event manager will start recording focus events.
    /// This can't be stopped!
    pub fn start_recording_focus_events(&mut self)
        ensures
            final(self)@ == (EventManagerView { focus: true, ..old(self)@ }),
    {
        self.focus = true;
        proof {
            assert(self@ =~= EventManagerView { focus: true, ..old(self)@ });
        }
    }

    /// The event manager will start recording size events.
    /// This can't be stopped!
    pub fn start_recording_size_events(&mut self)
        ensures
            final(self)@ == (EventManagerView { size: true, ..old(self)@ }),
    {
        self.size = true;
        proof {
            assert(self@ =~= EventManagerView { size: true, ..old(self)@ });
        }
    }

    /// Start recording every category that a selection names. Joysticks
    /// are not implemented, so the selection must not ask for them.
    pub fn start_recording(&mut self, types: EventTypes)
        requires
            !types.joystick,
        ensures
            final(self)@ == (EventManagerView {
                mouse: old(self)@.mouse || types.mouse,
                keyboard: old(self)@.keyboard || types.keyboard,
                focus: old(self)@.focus || types.focus,
                size: old(self)@.size || types.size,
                ..old(self)@
            }),
    {
        if types.mouse {
            self.start_recording_mouse_events();
        }
        if types.keyboard {
            self.start_recording_keyboard_events();
        }
        if types.size {
            self.start_recording_size_events();
        }
        if types.focus {
            self.start_recording_focus_events();
        }
        proof {
            assert(self@ =~= EventManagerView {
                mouse: old(self)@.mouse || types.mouse,
                keyboard: old(self)@.keyboard || types.keyboard,
                focus: old(self)@.focus || types.focus,
                size: old(self)@.size || types.size,
                ..old(self)@
            });
        }
    }

    /// Record one host notification: its event goes to the back of the
    /// queue when the category is recorded; a notification of a category
    /// that was never started changes nothing.
    pub fn deliver(&mut self, n: Notification)
        ensures
            final(self)@ == deliver_one(old(self)@, n),
    {
        let recorded = match n {
            Notification::Mouse(_, _, _, _) => self.mouse,
            Notification::Keyboard(_, _) => self.keyboard,
            Notification::Resize(_, _) => self.size,
            Notification::Focus(_) => self.focus,
        };
        if recorded {
            let event = match n {
                Notification::Mouse(a, button, x, y) => Event::MouseEvent(
                    match a {
                        MouseAction::Click => MouseEvent::Click(button, x, y),
                        MouseAction::DoubleClick => MouseEvent::DoubleClick(button, x, y),
                        MouseAction::Down => MouseEvent::Down(button, x, y),
                        MouseAction::Up => MouseEvent::Up(button, x, y),
                        MouseAction::Enter => MouseEvent::Enter(x, y),
                        MouseAction::Leave => MouseEvent::Leave(x, y),
                        MouseAction::Move => MouseEvent::Move(x, y),
                    },
                ),
                Notification::Keyboard(KeyboardAction::Up, code) => Event::KeyboardEvent(
                    KeyboardEvent::Up(code),
                ),
                Notification::Keyboard(KeyboardAction::Down, code) => Event::KeyboardEvent(
                    KeyboardEvent::Down(code),
                ),
                Notification::Resize(width, height) => Event::ResizeEvent(width, height),
                Notification::Focus(focused) => Event::FocusEvent(focused),
            };
            self.events.push_back(event);
            proof {
                assert(self@ =~= deliver_one(old(self)@, n));
            }
        } else {
            proof {
                assert(self@ =~= deliver_one(old(self)@, n));
            }
        }
    }

    /// Remove and return the oldest pending event, or `None` when the
    /// queue is empty. This never waits for an event.
    pub fn next(&mut self) -> (r: Option<Event>)
        ensures
            old(self)@.queue.len() == 0 ==> r == None::<Event> && final(self)@ == old(self)@,
            old(self)@.queue.len() > 0 ==> r == Some(old(self)@.queue[0]) && final(self)@ == (
            EventManagerView {
                queue: old(self)@.queue.subrange(1, old(self)@.queue.len() as int),
                ..old(self)@
            }),
    {
        let r = self.events.pop_front();
        proof {
            if old(self)@.queue.len() == 0 {
                assert(self@ =~= old(self)@);
            } else {
                assert(self@ =~= EventManagerView {
                    queue: old(self)@.queue.subrange(1, old(self)@.queue.len() as int),
                    ..old(self)@
                });
            }
        }
        r
    }
}

/// Which event categories a selection mask names.
#[derive(Clone, Copy, Debug, PartialEq, Eq, Structural)]
pub struct EventTypes {
    /// The mask names mouse events.
    pub mouse: bool,
    /// The mask names keyboard events.
    pub keyboard: bool,
    /// The mask names resize events.
    pub size: bool,
    /// The mask names focus events.
    pub focus: bool,
    /// The mask names joystick events.
    pub joystick: bool,
}

/// Read an event-type mask, as built by adding the `*_EVENT` constants,
/// into one flag per category.
pub fn decode_event_types(events: u8) -> (r: EventTypes)
    ensures
        r.mouse == ((events & MOUSE_EVENT) == MOUSE_EVENT),
        r.keyboard == ((events & KEYBOARD_EVENT) == KEYBOARD_EVENT),
        r.size == ((events & RESIZE_EVENT) == RESIZE_EVENT),
        r.focus == ((events & FOCUS_EVENT) == FOCUS_EVENT),
        r.joystick == ((events & JOYSTICK_EVENT) == JOYSTICK_EVENT),
{
    EventTypes {
        mouse: events & MOUSE_EVENT == MOUSE_EVENT,
        keyboard: events & KEYBOARD_EVENT == KEYBOARD_EVENT,
        size: events & RESIZE_EVENT == RESIZE_EVENT,
        focus: events & FOCUS_EVENT == FOCUS_EVENT,
        joystick: events & JOYSTICK_EVENT == JOYSTICK_EVENT,
    }
}

/// Delivering any sequence of notifications to a manager that records
/// every category appends exactly those notifications' events, in arrival
/// order, and touches nothing else. In particular, a manager that started
/// empty then holds exactly those events, so draining it returns them in
/// arrival order and leaves the queue empty.
pub proof fn lemma_deliver_all_in_order(v: EventManagerView, ns: Seq<Notification>)
    requires
        v.mouse,
        v.keyboard,
        v.focus,
        v.size,
    ensures
        deliver_all(v, ns).queue == v.queue + ns.map(|i: int, n: Notification| event_of(n)),
        deliver_all(v, ns).mouse == v.mouse,
        deliver_all(v, ns).keyboard == v.keyboard,
        deliver_all(v, ns).focus == v.focus,
        deliver_all(v, ns).size == v.size,
    decreases ns.len(),
{
    let events = ns.map(|i: int, n: Notification| event_of(n));
    if ns.len() == 0 {
        assert(deliver_all(v, ns).queue =~= v.queue + events);
    } else {
        let tail = ns.subrange(1, ns.len() as int);
        lemma_deliver_all_in_order(deliver_one(v, ns[0]), tail);
        assert(deliver_all(v, ns).queue =~= v.queue + events);
    }
}

} // verus!
