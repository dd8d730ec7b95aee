//! A verified model of a single-window event-pump: one display connection,
//! one top-level window, close-request detection, and the state machine of a
//! render loop that pumps events until the user asks to close the window.

pub mod display;
pub mod driver;
pub mod event;
pub mod proxy;
pub mod window;
