//! Reaping child processes: a typed, verified view of the wait status.
//!
//! The operating system reports a child's state change as a packed integer
//! whose bit pattern distinguishes normal exit, death by signal, a job-control
//! stop, and a resume.  This crate decodes that raw word into the closed
//! [`status::WaitStatus`] variant set, with the classification proved
//! mutually exclusive, and wraps the blocking (or polling) wait call so that
//! its three return regimes — error, "no change yet", and a reaped child —
//! surface as one typed result.
//!
//! A successful wait consumes the child's process-table entry: it is a
//! resource-consuming operation, not a pure query.

pub mod status;
pub mod wait;

pub use status::WaitStatus;
pub use wait::{wait, waitpid, Error, WaitPidFlag};
