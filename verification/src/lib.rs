//! Client-side runtime for a central configuration and service registry.
//!
//! The crate holds the decisions of the client: how errors are classified,
//! how requests and form bodies are laid out, how a watch follows revisions,
//! and how a service keeper holds one lease and the services plugged under it.
//! Network transport and timers are left to the embedding program, which
//! performs the actions that the state machines here hand out and reports
//! back what happened.
use vstd::prelude::*;

pub mod cert;
pub mod client;
pub mod config;
pub mod error;
pub mod request;
pub mod seqs;
pub mod service;
pub mod service_keeper;
pub mod watcher;

pub use self::client::Client;
pub use self::config::Config;
pub use self::error::Error;
pub use self::request::Form;
pub use self::service_keeper::KeepTask;
pub use self::watcher::{RevisionResult, WatchTask};

verus! {

/// The zone that a service belongs to when none is named.
pub const DEFAULT_ZONE: &'static str = "default";

} // verus!
