//! Independent natural-scrolling direction for trackpad and mouse.
//!
//! The library holds the decisions: which scroll deltas to invert for a given
//! device and set of toggles, where the configuration and the login item
//! live, what the login item says, what a stored system scroll-direction
//! value means, and how the event tap and the settings window react to what
//! they receive.

pub mod config;
pub mod paths;
pub mod login_item;
pub mod scroll;
pub mod system_pref;
pub mod ui;
