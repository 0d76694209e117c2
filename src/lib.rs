//! A supervisor for one background worker process: it starts at most one
//! worker, tracks whether it is alive, and stops it on demand.

pub mod laws;
pub mod supervisor;

pub use supervisor::{
    reap_result, terminate_result, Process, StatusStep, Supervisor, SupervisorError, WorkerStatus,
};
