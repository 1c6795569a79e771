//! MQTT support: settings, messages, and the decisions of the connection that
//! publishes and receives them.

pub mod config;
pub mod message_manager;
pub mod mqtt_handler;
