//! Running accepted connections on worker threads.
pub mod executor;
