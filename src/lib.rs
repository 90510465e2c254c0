//! A job queue kept in a key-value store: producers enqueue jobs, workers
//! claim them, run them under a timeout and publish the outcome.
//!
//! The library holds the job record, the store's key layout, the read path,
//! and the worker loop as a state machine (`worker::Worker`) whose every
//! decision is specified by `worker::next`. `store` models the store and
//! proves the protocol's properties over that model.
use vstd::prelude::*;

pub mod job;
pub mod queue;
pub mod status;
pub mod store;
pub mod worker;

pub use queue::Queue;
pub use status::Status;

verus! {

} // verus!
