//! Session-state tracking for coding-agent sessions on a single workstation.
//!
//! The library models two on-disk artifacts — a registry of per-session
//! liveness locks and a file-backed record store — and resolves, for a queried
//! project path, whether an agent is currently active there and in what state.
//! All algorithmic decisions (path matching, lock selection, record selection,
//! the hook state machine) are verified; file and process I/O stay outside and
//! hand the library plain snapshots.

pub mod activity;
pub mod adapter;
pub mod config;
pub mod dashboard;
pub mod hook;
pub mod laws;
pub mod locks;
pub mod paths;
pub mod resolver;
pub mod shell;
pub mod store;
pub mod sys;
pub mod types;
pub mod ui_config;
