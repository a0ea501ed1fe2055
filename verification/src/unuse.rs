//! The `unuse` decision: a user-facing wrapper around `decref` that warns
//! but still proceeds when the server is already in its grace period.

use vstd::prelude::*;

use crate::error::Error;
use crate::state::ServerState;

verus! {

/// Decide how a detach request proceeds.  `Ok(warn)` means the detach goes
/// on to `decref`, with `warn` set when the server is already in Grace (the
/// detach is then reported against an empty refcount).
pub fn execute(state: ServerState) -> (r: Result<bool, Error>)
    ensures
        state is Stopped ==> (r matches Err(e) && e is NotRunning),
        state is Grace ==> (r matches Ok(warn) && warn),
        state is Active ==> (r matches Ok(warn) && !warn),
{
    match state {
        ServerState::Stopped => Err(Error::NotRunning),
        ServerState::Grace => Ok(true),
        ServerState::Active => Ok(false),
    }
}

} // verus!
