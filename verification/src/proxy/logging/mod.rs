//! Log output.
pub mod fmt;
pub mod line;
