//! Verified core of an on-screen touch keyboard for Wayland: the panel's
//! show/hide state machine, the key layouts, modifier handling, the decisions
//! taken on every tap, and the pixel routines that paint the panel.

pub mod appearance;
pub mod keyboard;
pub mod layout;
pub mod mod_set;
pub mod raster;
pub mod shell_state;
pub mod vk;
