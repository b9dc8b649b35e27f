//! How a non-blocking connect that has not finished yet is recognised.
use vstd::prelude::*;

use crate::config::canonicalize::TargetPlatform;

verus! {

/// Linux's error number for an operation now in progress.
pub const EINPROGRESS: i32 = 115;

/// What the socket layer reported for a failed connect: whether its kind is
/// "would block", and the operating system's error number where there is
/// one.
#[derive(Clone, Copy, Debug, PartialEq, Eq, Structural)]
pub struct ConnectError {
    pub would_block: bool,
    pub raw_os_error: Option<i32>,
}

/// A connect that failed this way is still under way: it would block, or,
/// on Linux, the system says it is in progress.
pub fn is_connect_in_progress(error: &ConnectError, platform: TargetPlatform) -> (r: bool)
    ensures
        r == (error.would_block || (platform is Linux && error.raw_os_error == Some(EINPROGRESS))),
{
    let on_linux = match platform {
        TargetPlatform::Linux { .. } => true,
        TargetPlatform::Other => false,
    };
    error.would_block || (on_linux && error.raw_os_error == Some(EINPROGRESS))
}

} // verus!
