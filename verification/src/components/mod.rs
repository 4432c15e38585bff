//! The configuration screens of the device front end: shared state, form inputs
//! and the wifi access point screen.
pub mod common;
pub mod settings;
pub mod wifi_ap;
pub mod field;
pub mod wifi;
pub mod layout;
