//! Docker Manager for Zed: slash commands that manage Docker containers,
//! images and compose services, and the completions offered for their
//! arguments.

pub mod text;
pub mod types;
pub mod docker;
pub mod testing;
pub mod commands;
pub mod completions;
pub mod extension;
