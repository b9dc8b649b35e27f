//! Traffic plans for the relay benchmarks.
pub mod cli;
pub mod harness;
pub mod scenarios;
