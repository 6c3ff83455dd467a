//! Verified core of a daemon that runs shell actions when a configured key
//! chord is pressed while a window of a configured application has focus.

pub mod text;
pub mod types;
pub mod event;
pub mod config;
pub mod niri;
pub mod trigger;
pub mod paths;
