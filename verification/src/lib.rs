//! A Minecraft proxy's verified core: the wire format of the first packets,
//! the configuration and its checks, the status response's text, and the
//! small decisions the proxy takes on each connection.
pub mod benchmark;
pub mod config;
pub mod json;
pub mod minecraft;
pub mod motd;
pub mod proxy;
pub mod text;
