//! The commands that the plugin can run.

pub mod config;
