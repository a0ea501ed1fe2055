//! The `kill` operation: immediate SIGKILL and unconditional cleanup.

use vstd::prelude::*;

use crate::error::Error;
use crate::records::ServerLock;
use crate::state::ServerState;

verus! {

/// Everything the shell must do to force-kill a server: SIGKILL the server
/// PID, SIGKILL the watcher too if one is recorded and still alive, then
/// remove both lockfiles unconditionally.
#[derive(Debug)]
pub struct KillPlan {
    pub server_pid: i32,
    pub watcher_pid: Option<i32>,
}

/// Gate a kill request: refuse when no server is running, otherwise hand
/// back the recorded PIDs to signal.
pub fn execute(state: ServerState, recorded: Option<&ServerLock>) -> (r: Result<KillPlan, Error>)
    requires
        !(state is Stopped) ==> (recorded matches Some(rec)),
    ensures
        state is Stopped <==> (r matches Err(e) && e is NotRunning),
        !(state is Stopped) ==> (r matches Ok(p) && (recorded matches Some(rec) && p.server_pid
            == rec.pid && p.watcher_pid == rec.watcher_pid)),
{
    match state {
        ServerState::Stopped => Err(Error::NotRunning),
        ServerState::Active | ServerState::Grace => {
            let rec = recorded.unwrap();
            Ok(KillPlan { server_pid: rec.pid, watcher_pid: rec.watcher_pid })
        },
    }
}

} // verus!
