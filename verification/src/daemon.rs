//! The wallpaper daemon: battery and idle gating, configuration lookup per
//! output, and the output/pointer state behind its Wayland event handlers.

pub mod battery;
pub mod config;
pub mod depth;
pub mod idle;

pub mod wayland;
