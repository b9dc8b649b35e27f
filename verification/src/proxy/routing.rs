//! Where the API sends a joining player.
use vstd::prelude::*;

verus! {

/// The upstream a player is sent to.
#[derive(Clone, Debug, PartialEq, Eq)]
pub struct JoinTarget {
    pub target_addr: String,
    pub rewrite_addr: Option<String>,
    pub connection_id: Option<String>,
}

/// The API's answer to a join: where to send the player, or why not.
#[derive(Clone, Debug, PartialEq, Eq)]
pub enum JoinDecision {
    Allow(JoinTarget),
    Deny { kick_reason: String },
}

} // verus!
