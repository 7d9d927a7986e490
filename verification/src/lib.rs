//! Control-plane library for driving RTS game-engine instances.
//!
//! The crate holds the verified logic of a game manager process: the
//! lobby wire protocol and its state machine, the engine-IPC line
//! format shared with the in-engine plugin, the plugin's own state
//! machine, the engine supervisor's instance table, and the mediator's
//! routing decisions. All I/O stands outside the library; functions
//! here compute from plain values to plain values.

pub mod engine;
pub mod ipc;
pub mod keymap;
pub mod mediator;
pub mod json;
pub mod numfmt;
pub mod plugin;
pub mod protocol;
pub mod state;
pub mod text;
pub mod write_dir;

use vstd::prelude::*;

verus! {

/// The hard cap on the plugin's outbound buffer, in bytes.
pub const WRITE_BUF_CAP: usize = 262144;

} // verus!
