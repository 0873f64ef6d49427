//! The core of an effect plugin that runs a scripted, per-frame computation
//! in the background of a host with a single main thread.
//!
//! The host starts a render job and gets a [`JobId`]; a worker executes the
//! frames and reports to the [`GlobalPlugin`] at every frame boundary, where
//! it also learns of a cancellation; the host's idle notification drives the
//! idle bridge, which copies the progress of the live jobs into a cache of
//! the main thread, and the user interface reads that cache. Failures of the
//! script are kept per instance and parameter for the interface to show, and
//! an [`Instance`] can be stored and read back.
//!
//! The core performs no host call and starts no thread: it decides, and says
//! what to do.

pub mod command;
pub mod debug_store;
pub mod error;
pub mod idle;
pub mod instance;
pub mod job;
pub mod laws;
pub mod param;
pub mod plugin;
pub mod registry;

pub use crate::error::Error;
pub use crate::idle::MainThreadContext;
pub use crate::instance::Instance;
pub use crate::job::JobId;
pub use crate::param::ParamIdx;
pub use crate::plugin::GlobalPlugin;
