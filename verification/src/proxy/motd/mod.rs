//! Status responses.
pub mod cache;
pub mod context;
pub mod favicon;
pub mod legacy;
pub mod rewrite;
pub mod upstream;
