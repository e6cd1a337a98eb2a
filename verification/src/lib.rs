//! Provisioning and configuration for a Luau language-server launch.
//!
//! The crate resolves layered user settings into a typed configuration,
//! merges feature-flag sources with a fixed precedence, plans the caching
//! and cleanup of downloaded artifacts, and assembles the final
//! command-line invocation.

pub mod assets;
pub mod command;
pub mod config;
pub mod errors;
pub mod fflags;
pub mod json;
pub mod provision;
pub mod roblox;
pub mod strutil;
