//! Device bridge and hardware emulation core for mobile test automation.
//!
//! The crate models endpoints (devices, emulators, simulators), drives a
//! per-endpoint connection lifecycle state machine, maintains synthetic
//! sensor state with validated injection, and supervises cancelable
//! background streaming loops. Platform tools are invoked outside the
//! library; the logic that decides, validates and records is here.

pub mod adapter;
pub mod bridge;
pub mod config;
pub mod discovery;
pub mod emulator;
pub mod endpoint;
pub mod errors;
pub mod mcp;
pub mod project;
pub mod registry;
pub mod sensors;
pub mod streaming;
pub mod strutil;
pub mod testing;
pub mod utils;
