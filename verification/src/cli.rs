//! The command-line companion: baking paths, the CLI's view of the
//! configuration, the model location and the config-file edits.

pub mod cache;
pub mod commands;
pub mod config;
pub mod fetch_model;
