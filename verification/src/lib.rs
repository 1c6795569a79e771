//! Gamepad-driven control library: controller event processing, input mapping
//! (keyboard, ELRS channels, custom protocols), MQTT connection decisions,
//! configuration storage and the UI state that drives them.

pub mod clock;
pub mod controller;
pub mod mapping;
pub mod mqtt;
pub mod persistence;
pub mod ui;
