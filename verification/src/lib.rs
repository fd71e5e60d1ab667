//! Session and file-watch coordinator for a multi-window document editor.
//!
//! The crate keeps a set of independently opened document windows consistent
//! with files opened from disk, external modifications reported by a
//! filesystem watcher, process-launch arguments, and menu-driven commands.
//! All decisions are made here, on plain values; the hosting runtime performs
//! the windowing and the I/O and carries out the [`events::Action`] values
//! these functions return.

pub mod events;
pub mod pending;
pub mod registry;
pub mod paths;
pub mod watch;
pub mod launch;
pub mod router;
pub mod menu;
pub mod ops;
