//! What the front end asks of the device's HTTP interface.
pub mod uri_utils;
pub mod wifi;
