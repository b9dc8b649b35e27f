//! The proxy: its configuration, and the decisions it takes on connections.
pub mod api;
pub mod app;
pub mod config;
pub mod hooks;
pub mod logging;
pub mod motd;
pub mod network;
pub mod routing;
