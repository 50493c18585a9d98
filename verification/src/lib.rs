//! The logic of a Discord Rich Presence connector for Chunithm.

pub mod activity;
pub mod code;
pub mod config;
pub mod hooks;
pub mod installer;
pub mod journal;
pub mod logging;
pub mod memory;
pub mod paths;
pub mod presence;
pub mod runtime;
pub mod runtime_hooks;
pub mod songs;
pub mod text;
pub mod types;
