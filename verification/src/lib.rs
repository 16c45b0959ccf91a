//! Plugin metadata and hook tables for Wii U plugin (WUPS) macros.
//!
//! The library decides what the plugin macros emit: the `.wups.meta`
//! entries (`key=value\0` strings), the `.wups.hooks` table entries, the
//! symbols they are stored under, and how the macro inputs are read.
//! Turning these plans into Rust tokens is left to the caller.
pub mod bytes;
pub mod clock;
pub mod hooks;
pub mod input;
pub mod meta;
pub mod plugin;
pub mod tokens;

