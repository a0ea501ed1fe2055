//! The `use` decision: atomic start-or-attach.
//!
//! A stopped server is launched together with its first client (so the new
//! server is never momentarily without clients); a running one is attached
//! to; one in its grace period is attached to and thereby rescued.

use vstd::prelude::*;

use crate::error::Error;
use crate::state::ServerState;

verus! {

/// What a `use` invocation must do next.
#[derive(Clone, Copy, Debug, PartialEq, Eq, Structural)]
pub enum UseAction {
    /// Launch the server with the caller as initial client (refcount 1).
    StartServer,
    /// Attach to the running server.
    Attach,
    /// Attach to a server in its grace period, cancelling the impending
    /// termination; the caller reports that a rescue occurred.
    Rescue,
}

/// Decide the action for a `use` invocation.  A stopped server can only be
/// started when a command was supplied.
pub fn execute(state: ServerState, command: &Vec<String>) -> (r: Result<UseAction, Error>)
    ensures
        state is Stopped && command@.len() == 0 ==> (r matches Err(e) && e matches
            Error::InvalidArgv { detail } && detail@
            == "Server is not running and no command provided"@),
        state is Stopped && command@.len() > 0 ==> r == Ok::<UseAction, Error>(
            UseAction::StartServer,
        ),
        state is Active ==> r == Ok::<UseAction, Error>(UseAction::Attach),
        state is Grace ==> r == Ok::<UseAction, Error>(UseAction::Rescue),
        r is Err <==> (state is Stopped && command@.len() == 0),
{
    match state {
        ServerState::Stopped => {
            if command.len() == 0 {
                Err(
                    Error::InvalidArgv {
                        detail: "Server is not running and no command provided".to_owned(),
                    },
                )
            } else {
                Ok(UseAction::StartServer)
            }
        },
        ServerState::Active => Ok(UseAction::Attach),
        ServerState::Grace => Ok(UseAction::Rescue),
    }
}

} // verus!
