//! Staged filesystem operations and shell inhabitation for a dotfile manager.

pub mod config;
pub mod file_operations;
pub mod fs;
pub mod hermit;
pub mod message;
pub mod path;
pub mod shell;
pub mod test_helpers;
