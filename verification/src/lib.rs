//! Verified core of the shiftpaper parallax wallpaper tools: path and
//! configuration resolution, cache naming, config-file editing and the
//! output/pointer/idle/battery state of the wallpaper daemon.

pub mod cli;
pub mod digest;
pub mod config;
pub mod daemon;
pub mod depth;
pub mod dirs;
pub mod paths;
pub mod pixels;
pub mod toml_doc;
pub mod wayland;
