//! Controller subsystem: raw gamepad input types and the button-event pipeline
//! that turns press/release events into held and completed button events.

pub mod controller_handle;
pub mod event_collector;
pub mod event_processor;
