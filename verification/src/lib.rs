//! A 2D game library for web browsers, centred on a drawable canvas,
//! loadable images and fonts, and recording of host input events.
//!
//! The browser itself (DOM elements, the 2D rendering context, event
//! listeners, timers) is a host facility; this crate holds the data types
//! and the state logic that sit between the host callbacks and the game:
//! colors and their CSS form, fonts and text styling, the event queue that
//! host listeners feed and the game drains, and the global mouse tracker.

pub mod canvas;
pub mod color;
pub mod decimal;
pub mod event;
pub mod font;
pub mod image;
pub mod joystick;
pub mod keyboard;
pub mod mouse;
pub mod text;
