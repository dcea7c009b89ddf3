//! Scroll events: the toggles that decide them, the device classification,
//! the inversion itself and the event tap's reactions.

pub mod classify;
pub mod state;
pub mod tap;
pub mod transform;

pub use state::ScrollState;
