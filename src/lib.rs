//! Launches previously defined scans on a vulnerability scanner's web
//! interface: extracts the rotating API token from the served script,
//! exchanges credentials for a session token, and drives one retrying launch
//! per scan id.
//!
//! Network traffic, timers and logging belong to the caller: the batch and
//! each scan's launch are state machines that say which request to make or
//! how long to wait, and take back what came of it.
use vstd::prelude::*;

pub mod batch;
pub mod config;
pub mod error;
pub mod ids;
pub mod launch;
pub mod request;
pub mod retry;
pub mod session;
pub mod text;
pub mod token;

pub use batch::{BatchAction, BatchPhase, LaunchBatch, LaunchRequest};
pub use config::NessusConfig;
pub use error::NessusError;
pub use launch::{LaunchOutcome, RetryStep, ScanTask};
pub use retry::{RetryPolicy, TaskState};

verus! {

} // verus!
