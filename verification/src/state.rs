//! The state oracle: a server's condition is never stored, it is derived from
//! which lockfiles exist and whether the recorded server process is alive.

use vstd::prelude::*;

verus! {

/// Condition of a named server, derived on demand.
#[derive(Clone, Copy, Debug, PartialEq, Eq, Structural)]
pub enum ServerState {
    /// No server recorded, or the recorded process is dead.
    Stopped,
    /// Server alive and at least one client attached (clients file present).
    Active,
    /// Server alive with no clients; the grace timer is running.
    Grace,
}

impl ServerState {
    /// Stable lower-case token for display and JSON output.
    pub fn as_str(&self) -> (r: &'static str)
        ensures
            *self is Stopped ==> r@ == "stopped"@,
            *self is Active ==> r@ == "active"@,
            *self is Grace ==> r@ == "grace"@,
    {
        match self {
            ServerState::Stopped => "stopped",
            ServerState::Active => "active",
            ServerState::Grace => "grace",
        }
    }

    /// Exit code surfaced by the `check` command.
    pub open spec fn spec_exit_code(self) -> i32 {
        match self {
            ServerState::Active => 0,
            ServerState::Grace => 1,
            ServerState::Stopped => 2,
        }
    }

    /// Exit code surfaced by the `check` command: 0 for Active, 1 for Grace,
    /// 2 for Stopped.
    pub fn exit_code(&self) -> (r: i32)
        ensures
            r == self.spec_exit_code(),
    {
        match self {
            ServerState::Active => 0,
            ServerState::Grace => 1,
            ServerState::Stopped => 2,
        }
    }
}

/// What the state oracle says for a given observation of the world: no server
/// file (or a dead recorded process) means Stopped; otherwise the presence of
/// the clients file distinguishes Active from Grace.
pub open spec fn spec_server_state(
    has_server_file: bool,
    server_pid_alive: bool,
    has_clients_file: bool,
) -> ServerState {
    if !has_server_file {
        ServerState::Stopped
    } else if !server_pid_alive {
        ServerState::Stopped
    } else if has_clients_file {
        ServerState::Active
    } else {
        ServerState::Grace
    }
}

/// Derive the server state from one observation of the on-disk files and of
/// the recorded server process.  `server_pid_alive` is only consulted when the
/// server file exists; callers that found no server file may pass anything.
pub fn get_server_state(
    has_server_file: bool,
    server_pid_alive: bool,
    has_clients_file: bool,
) -> (s: ServerState)
    ensures
        s == spec_server_state(has_server_file, server_pid_alive, has_clients_file),
{
    if !has_server_file {
        ServerState::Stopped
    } else if !server_pid_alive {
        ServerState::Stopped
    } else if has_clients_file {
        ServerState::Active
    } else {
        ServerState::Grace
    }
}

/// The `check` surface is stable across stale-file cleanup: lockfiles
/// recording a dead server derive Stopped, exactly as their absence does,
/// so removing them never changes the reported state or exit code.
pub proof fn lemma_state_stable_across_stale_cleanup(has_clients_file: bool)
    ensures
        spec_server_state(true, false, has_clients_file) == ServerState::Stopped,
        spec_server_state(false, false, false) == ServerState::Stopped,
        spec_server_state(true, false, has_clients_file).spec_exit_code() == spec_server_state(
            false,
            false,
            false,
        ).spec_exit_code(),
{
}

} // verus!
