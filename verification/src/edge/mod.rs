//! The pieces of the device front end: asset metadata, roles, form inputs,
//! IP and wifi configuration.
pub mod field;
pub mod ipv4;
pub mod wifi;
pub mod assets;
pub mod dto;
pub mod role;
pub mod redust;
pub mod wifi_setup;
