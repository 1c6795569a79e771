//! State and decisions of the menus: which server and topics are selected, what
//! the session menu asks for, and the data the ELRS and settings menus show.

pub mod common;
pub mod elrs_menu;
pub mod settings_menu;
pub mod main_menu;
pub mod mqtt_menu;
pub mod navigation;
