//! Bounded-concurrency batch ISO downloader: the verified core.
//!
//! The crate holds the decision logic of the downloader: deriving a local
//! file name from a URL, the skip-if-exists rule, per-transfer progress
//! accounting, the single-download protocol as a state machine, and the
//! batch scheduler that bounds how many downloads run at once and aborts
//! the batch on the first failure.  The surrounding process (argument
//! vector, configuration file, HTTP requests, file writes, subprocesses)
//! hands plain values in and carries the decided actions out.

pub mod args;
pub mod batch;
pub mod display;
pub mod errors;
pub mod progress;
pub mod resolver;
pub mod session;
