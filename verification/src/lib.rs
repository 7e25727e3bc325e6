//! Folder-local kanban board synchronization engine.
//!
//! The engine keeps a markdown board document (`todo.md`), its optional
//! automation sidecar, per-task note files and archive snapshots consistent
//! within one working folder, and runs a single-session watch state machine
//! over the board file. All decisions are made here over plain values; the
//! surrounding application performs the actual file system reads and writes
//! that the engine's step functions prescribe.

pub mod error;
pub mod laws;
pub mod notes;
pub mod opener;
pub mod sanitize;
pub mod store;
pub mod watch;
