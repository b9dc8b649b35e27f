//! The bodies the API service receives.
use vstd::prelude::*;

verus! {

/// Traffic of one connection, in bytes each way.
#[derive(Clone, Copy, Debug, PartialEq, Eq, Structural)]
pub struct TrafficBody {
    pub send_bytes: u64,
    pub recv_bytes: u64,
}

} // verus!
