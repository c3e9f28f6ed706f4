//! Keeps an in-memory news index in step with a directory tree.
//!
//! The crate holds the decisions of the synchronisation task and the handle
//! through which the index is shared; waiting, watching and scanning are left
//! to the program that drives it.

pub mod config;
pub mod event;
pub mod history;
pub mod index;
pub mod watch_loop;
