//! Helpers of the components: shared callbacks.
pub mod callback2;
