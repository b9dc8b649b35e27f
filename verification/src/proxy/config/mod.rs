//! The proxy's configuration: the file as written, the normalized runtime
//! form, and the checks between them.
pub mod checker;
pub mod default;
pub mod literals;
pub mod loader;
pub mod normalizer;
pub mod schema_types;
pub mod types;
