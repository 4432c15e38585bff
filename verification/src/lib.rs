//! Verified decision logic of an embedded-device web front end: form
//! validation, wifi and IP configuration state, role based access and
//! asset metadata.
pub mod net;
pub mod text;
pub mod edge;
pub mod redust;
pub mod lambda;
pub mod utils;
pub mod util;
pub mod components;
pub mod api;
pub mod plugin;
pub mod frame;
pub mod exit;
