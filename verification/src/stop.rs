//! The `stop` operation: graceful termination with optional escalation.
//!
//! The shell sends SIGTERM, polls liveness for up to five seconds, and asks
//! here what to do at each juncture; on confirmed death it removes both
//! lockfiles.

use vstd::prelude::*;

use crate::error::Error;
use crate::records::ServerLock;
use crate::state::ServerState;

verus! {

/// Gate a stop request: refuse when no server is running, otherwise name
/// the PID to signal.
pub fn execute(state: ServerState, recorded: Option<&ServerLock>) -> (r: Result<i32, Error>)
    requires
        !(state is Stopped) ==> (recorded matches Some(rec)),
    ensures
        state is Stopped <==> (r matches Err(e) && e is NotRunning),
        !(state is Stopped) ==> (r matches Ok(pid) && (recorded matches Some(rec) && pid
            == rec.pid)),
{
    match state {
        ServerState::Stopped => Err(Error::NotRunning),
        ServerState::Active | ServerState::Grace => Ok(recorded.unwrap().pid),
    }
}

/// What follows the graceful wait.
#[derive(Clone, Copy, Debug, PartialEq, Eq, Structural)]
pub enum StopFollowup {
    /// The server exited in time: remove both lockfiles and report success.
    CleanupNow,
    /// Still alive and force was requested: send SIGKILL and confirm.
    ForceKill,
}

/// Decide after the graceful window: success if the server died, SIGKILL if
/// it survived and force was requested, a timeout error otherwise.
pub fn after_graceful_wait(alive: bool, force: bool) -> (r: Result<StopFollowup, Error>)
    ensures
        !alive ==> r == Ok::<StopFollowup, Error>(StopFollowup::CleanupNow),
        alive && force ==> r == Ok::<StopFollowup, Error>(StopFollowup::ForceKill),
        alive && !force ==> (r matches Err(e) && e is StopTimeout),
{
    if !alive {
        Ok(StopFollowup::CleanupNow)
    } else if force {
        Ok(StopFollowup::ForceKill)
    } else {
        Err(Error::StopTimeout)
    }
}

/// Decide after the SIGKILL confirmation wait: cleanup on confirmed death,
/// an error if the process somehow survived.
pub fn after_force_kill(alive: bool) -> (r: Result<(), Error>)
    ensures
        !alive ==> r is Ok,
        alive ==> (r matches Err(e) && e is KillFailed),
{
    if !alive {
        Ok(())
    } else {
        Err(Error::KillFailed)
    }
}

} // verus!
