//! Sockets: how a connect in progress is recognised.
pub mod socket;
