use wasm_game_lib::mouse::apply_mouse_update;
use wasm_game_lib::mouse::are_mouse_events_recorded;
use wasm_game_lib::mouse::get_mouse_position;
use wasm_game_lib::mouse::is_mouse_in_canvas;
use wasm_game_lib::mouse::is_pressed;
use wasm_game_lib::mouse::start_recording_mouse_events;
use wasm_game_lib::mouse::Button;
use wasm_game_lib::mouse::MouseTracker;
use wasm_game_lib::mouse::MouseUpdate;

#[test]
fn start_recording_twice_changes_nothing() {
    let mut tracker = MouseTracker::new();
    assert!(!are_mouse_events_recorded(&tracker));
    assert!(start_recording_mouse_events(&mut tracker));
    assert!(are_mouse_events_recorded(&tracker));
    let before = tracker;
    assert!(!start_recording_mouse_events(&mut tracker));
    assert_eq!(tracker, before);
}

#[test]
fn down_presses_exactly_that_button() {
    let mut tracker = MouseTracker::new();
    start_recording_mouse_events(&mut tracker);
    assert!(apply_mouse_update(&mut tracker, MouseUpdate::ButtonDown(2)));
    assert!(is_pressed(&tracker, Button::Secondary));
    assert!(!is_pressed(&tracker, Button::Main));
    assert!(!is_pressed(&tracker, Button::Auxiliary));
    assert!(!is_pressed(&tracker, Button::Fourth));
    assert!(!is_pressed(&tracker, Button::Fifth));
    assert!(apply_mouse_update(&mut tracker, MouseUpdate::ButtonUp(2)));
    assert!(!is_pressed(&tracker, Button::Secondary));
}

#[test]
fn up_releases_only_its_button() {
    let mut tracker = MouseTracker::new();
    start_recording_mouse_events(&mut tracker);
    apply_mouse_update(&mut tracker, MouseUpdate::ButtonDown(0));
    apply_mouse_update(&mut tracker, MouseUpdate::ButtonDown(4));
    apply_mouse_update(&mut tracker, MouseUpdate::ButtonUp(0));
    assert!(!is_pressed(&tracker, Button::Main));
    assert!(is_pressed(&tracker, Button::Fifth));
}

#[test]
fn move_sets_exactly_the_reported_position() {
    let mut tracker = MouseTracker::new();
    start_recording_mouse_events(&mut tracker);
    assert_eq!(get_mouse_position(&tracker), (0, 0));
    apply_mouse_update(&mut tracker, MouseUpdate::MoveTo(123, 456));
    assert_eq!(get_mouse_position(&tracker), (123, 456));
    apply_mouse_update(&mut tracker, MouseUpdate::MoveTo(0, 7));
    assert_eq!(get_mouse_position(&tracker), (0, 7));
}

#[test]
fn enter_and_leave_toggle_in_canvas() {
    let mut tracker = MouseTracker::new();
    assert!(is_mouse_in_canvas(&tracker));
    apply_mouse_update(&mut tracker, MouseUpdate::LeaveCanvas);
    assert!(!is_mouse_in_canvas(&tracker));
    apply_mouse_update(&mut tracker, MouseUpdate::EnterCanvas);
    assert!(is_mouse_in_canvas(&tracker));
}

#[test]
fn unknown_button_number_changes_nothing() {
    let mut tracker = MouseTracker::new();
    start_recording_mouse_events(&mut tracker);
    let before = tracker;
    assert!(!apply_mouse_update(&mut tracker, MouseUpdate::ButtonDown(5)));
    assert!(!apply_mouse_update(&mut tracker, MouseUpdate::ButtonUp(-1)));
    assert_eq!(tracker, before);
}

#[test]
fn button_try_from_accepts_zero_to_four() {
    for n in 0i16..=4 {
        assert_eq!(Button::try_from(n), Ok(Button::Main));
    }
    assert_eq!(Button::try_from(5), Err(5));
    assert_eq!(Button::try_from(-1), Err(-1));
}
