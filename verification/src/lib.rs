//! Reload orchestration for live code swapping.
//!
//! The crate holds the decisions of a hot-reload supervisor: when to rebuild,
//! in which order a running code unit is stopped, retired and replaced, how
//! the carried application state changes hands, and how a source tree is
//! fingerprinted to notice edits. Reading the disk, running the build and
//! starting threads is left to the caller, who feeds observations in and
//! carries the returned commands out.
//!
//! - [`controller`]: the reload state machine, from events to plans.
//! - [`resources`]: what the plans act on, and the proof that every plan can
//!   be carried out.
//! - [`custodian`]: the owner of the carried state, and the calls of the
//!   entry points on it.
//! - [`store`]: the backing files of the library generations.
//! - [`watcher`]: the change detector.
//! - [`shutdown`]: interception of the interrupt signal.
//! - [`thread`]: cancellation test and interval timer for workers.

pub mod controller;
pub mod custodian;
pub mod resources;
pub mod shutdown;
pub mod store;
pub mod thread;
pub mod watcher;
