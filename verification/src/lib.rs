//! Asynchronous execution engine for a terminal front end to a
//! version-control repository.
//!
//! The crate has two halves.  The push controller (`push`) dispatches a
//! single in-flight background operation, tracks its pending/result state
//! and relays live progress to the interface thread; the surrounding
//! process supplies the actual threads and channels and drives the
//! controller through its verified transitions.  The rebase engine
//! (`rebase`) replays commits one at a time onto a target, detects index
//! conflicts and guarantees that the repository is either restored or left
//! open for interactive resolution, calling the `git2` binding through the
//! trusted boundary in `git`.

pub mod error;
pub mod git;
pub mod progress;
pub mod push;
pub mod rebase;
