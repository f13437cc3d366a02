//! Decision pipeline of a project watcher: which file changes matter, when a
//! burst of changes may trigger a run, and which build actions a run consists of.

pub mod args;
pub mod config;
pub mod debounce;
pub mod dispatch;
pub mod filter;
pub mod plan;
pub mod watch;
