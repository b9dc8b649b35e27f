//! What the proxy reports to the API service.
pub mod service;
pub mod types;
