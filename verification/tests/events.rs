use wasm_game_lib::event::decode_event_types;
use wasm_game_lib::event::Event;
use wasm_game_lib::event::EventManager;
use wasm_game_lib::event::KeyboardAction;
use wasm_game_lib::event::MouseAction;
use wasm_game_lib::event::Notification;
use wasm_game_lib::event::FOCUS_EVENT;
use wasm_game_lib::event::JOYSTICK_EVENT;
use wasm_game_lib::event::KEYBOARD_EVENT;
use wasm_game_lib::event::MOUSE_EVENT;
use wasm_game_lib::event::RESIZE_EVENT;
use wasm_game_lib::keyboard::KeyboardEvent;
use wasm_game_lib::mouse::Button;
use wasm_game_lib::mouse::MouseEvent;

#[test]
fn draining_returns_all_delivered_events_in_order() {
    let mut manager = EventManager::new();
    manager.start_recording_mouse_events();
    manager.start_recording_keyboard_events();
    manager.start_recording_focus_events();
    manager.start_recording_size_events();

    let notifications = [
        Notification::Mouse(MouseAction::Down, Button::Main, 3, 4),
        Notification::Keyboard(KeyboardAction::Down, 65),
        Notification::Resize(800, 600),
        Notification::Focus(false),
        Notification::Mouse(MouseAction::Move, Button::Main, 5, 6),
        Notification::Keyboard(KeyboardAction::Up, 65),
        Notification::Focus(true),
        Notification::Mouse(MouseAction::Up, Button::Main, 5, 6),
    ];
    for n in notifications {
        manager.deliver(n);
    }

    let expected = [
        Event::MouseEvent(MouseEvent::Down(Button::Main, 3, 4)),
        Event::KeyboardEvent(KeyboardEvent::Down(65)),
        Event::ResizeEvent(800, 600),
        Event::FocusEvent(false),
        Event::MouseEvent(MouseEvent::Move(5, 6)),
        Event::KeyboardEvent(KeyboardEvent::Up(65)),
        Event::FocusEvent(true),
        Event::MouseEvent(MouseEvent::Up(Button::Main, 5, 6)),
    ];
    for e in expected {
        assert_eq!(manager.next(), Some(e));
    }
    assert_eq!(manager.next(), None);
    assert_eq!(manager.next(), None);
}

#[test]
fn unrecorded_categories_queue_nothing() {
    let mut manager = EventManager::new();
    manager.start_recording_focus_events();
    manager.deliver(Notification::Mouse(MouseAction::Click, Button::Main, 1, 2));
    manager.deliver(Notification::Keyboard(KeyboardAction::Down, 13));
    manager.deliver(Notification::Resize(10, 10));
    manager.deliver(Notification::Focus(true));
    assert_eq!(manager.next(), Some(Event::FocusEvent(true)));
    assert_eq!(manager.next(), None);
}

#[test]
fn blur_then_focus_poll_in_that_order() {
    let mut manager = EventManager::new();
    manager.start_recording_focus_events();
    manager.deliver(Notification::Focus(false));
    manager.deliver(Notification::Focus(true));
    assert_eq!(manager.next(), Some(Event::FocusEvent(false)));
    assert_eq!(manager.next(), Some(Event::FocusEvent(true)));
    assert_eq!(manager.next(), None);
}

#[test]
fn mouse_actions_map_to_their_events() {
    let mut manager = EventManager::new();
    manager.start_recording_mouse_events();
    manager.deliver(Notification::Mouse(MouseAction::Click, Button::Secondary, 1, 2));
    manager.deliver(Notification::Mouse(MouseAction::DoubleClick, Button::Main, 3, 4));
    manager.deliver(Notification::Mouse(MouseAction::Enter, Button::Main, 5, 6));
    manager.deliver(Notification::Mouse(MouseAction::Leave, Button::Main, 7, 8));
    assert_eq!(
        manager.next(),
        Some(Event::MouseEvent(MouseEvent::Click(Button::Secondary, 1, 2)))
    );
    assert_eq!(
        manager.next(),
        Some(Event::MouseEvent(MouseEvent::DoubleClick(Button::Main, 3, 4)))
    );
    assert_eq!(manager.next(), Some(Event::MouseEvent(MouseEvent::Enter(5, 6))));
    assert_eq!(manager.next(), Some(Event::MouseEvent(MouseEvent::Leave(7, 8))));
    assert_eq!(manager.next(), None);
}

#[test]
fn decode_event_types_reads_each_bit() {
    let all = decode_event_types(
        MOUSE_EVENT + KEYBOARD_EVENT + RESIZE_EVENT + FOCUS_EVENT + JOYSTICK_EVENT,
    );
    assert!(all.mouse && all.keyboard && all.size && all.focus && all.joystick);

    let none = decode_event_types(0);
    assert!(!none.mouse && !none.keyboard && !none.size && !none.focus && !none.joystick);

    let some = decode_event_types(MOUSE_EVENT + FOCUS_EVENT);
    assert!(some.mouse && !some.keyboard && !some.size && some.focus && !some.joystick);
}

#[test]
fn start_recording_a_selection() {
    let mut manager = EventManager::new();
    let types = decode_event_types(FOCUS_EVENT + RESIZE_EVENT);
    manager.start_recording(types);
    manager.deliver(Notification::Focus(true));
    manager.deliver(Notification::Resize(2, 3));
    manager.deliver(Notification::Keyboard(KeyboardAction::Up, 1));
    assert_eq!(manager.next(), Some(Event::FocusEvent(true)));
    assert_eq!(manager.next(), Some(Event::ResizeEvent(2, 3)));
    assert_eq!(manager.next(), None);
}
