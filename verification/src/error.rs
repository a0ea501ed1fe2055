//! The error surface of the supervisor.  Every failure a caller can observe is
//! one of these kinds; the shell turns them into a non-zero exit with the
//! rendered message on stderr.

use vstd::prelude::*;

use crate::decimal::{i64_to_string, spec_i64_digits};
use crate::state::ServerState;

verus! {

/// Error kinds surfaced to callers.
#[derive(Clone, Debug)]
pub enum Error {
    /// The named server has no live instance.
    NotRunning,
    /// A launch was attempted while a live instance exists.
    AlreadyRunning { pid: i32, state: ServerState },
    /// A detach was attempted while the refcount is already 0.
    AlreadyDetached,
    /// The given client PID is not recorded in the named server's clients
    /// file.
    NotAttached { pid: i32, name: String },
    /// The grace-period token does not parse to a positive duration.
    InvalidDuration,
    /// A malformed argument: an empty server command, or an environment
    /// override without `KEY=VALUE` shape.
    InvalidArgv { detail: String },
    /// The launch handshake did not complete within its window.
    StartTimeout,
    /// An advisory lock could not be acquired.
    LockUnavailable { path: String },
    /// A lockfile held empty or unparseable content.
    CorruptLockfile { path: String },
    /// The server ignored SIGTERM and force-kill was not requested.
    StopTimeout,
    /// The server survived SIGKILL.
    KillFailed,
    /// An operating-system failure on the given path.
    Io { path: String, detail: String },
}

/// The token the state oracle's value is rendered as.
pub open spec fn spec_state_str(state: ServerState) -> Seq<char> {
    match state {
        ServerState::Stopped => "stopped"@,
        ServerState::Active => "active"@,
        ServerState::Grace => "grace"@,
    }
}

impl Error {
    /// The human-readable message for this error.
    pub open spec fn spec_message(self) -> Seq<char> {
        match self {
            Error::NotRunning => "Server is not running"@,
            Error::AlreadyRunning { pid, state } => "Server is already running (PID: "@
                + spec_i64_digits(pid as int) + ", state: "@ + spec_state_str(state) + ")"@,
            Error::AlreadyDetached => "Server is in grace period (refcount already 0)"@,
            Error::NotAttached { pid, name } => "Client "@ + spec_i64_digits(pid as int)
                + " was not attached to server '"@ + name@ + "'"@,
            Error::InvalidDuration => "Invalid duration"@,
            Error::InvalidArgv { detail } => detail@,
            Error::StartTimeout => "Timeout waiting for server to start"@,
            Error::LockUnavailable { path } => "Failed to acquire lock on: "@ + path@,
            Error::CorruptLockfile { path } => "Corrupt or empty lockfile: "@ + path@,
            Error::StopTimeout => "Server did not stop within 5 seconds. Use --force to send SIGKILL"@,
            Error::KillFailed => "Failed to kill server process"@,
            Error::Io { path, detail } => detail@ + ": "@ + path@,
        }
    }

    /// Render the message shown to the user for this error.
    pub fn message(&self) -> (r: String)
        ensures
            r@ == self.spec_message(),
    {
        match self {
            Error::NotRunning => "Server is not running".to_owned(),
            Error::AlreadyRunning { pid, state } => {
                let mut s = "Server is already running (PID: ".to_owned();
                let digits = i64_to_string(*pid as i64);
                s.append(digits.as_str());
                s.append(", state: ");
                s.append(state.as_str());
                s.append(")");
                s
            },
            Error::AlreadyDetached => "Server is in grace period (refcount already 0)".to_owned(),
            Error::NotAttached { pid, name } => {
                let mut s = "Client ".to_owned();
                let digits = i64_to_string(*pid as i64);
                s.append(digits.as_str());
                s.append(" was not attached to server '");
                s.append(name.as_str());
                s.append("'");
                s
            },
            Error::InvalidDuration => "Invalid duration".to_owned(),
            Error::InvalidArgv { detail } => detail.clone(),
            Error::StartTimeout => "Timeout waiting for server to start".to_owned(),
            Error::LockUnavailable { path } => {
                let mut s = "Failed to acquire lock on: ".to_owned();
                s.append(path.as_str());
                s
            },
            Error::CorruptLockfile { path } => {
                let mut s = "Corrupt or empty lockfile: ".to_owned();
                s.append(path.as_str());
                s
            },
            Error::StopTimeout => "Server did not stop within 5 seconds. Use --force to send SIGKILL".to_owned(),
            Error::KillFailed => "Failed to kill server process".to_owned(),
            Error::Io { path, detail } => {
                let mut s = detail.clone();
                s.append(": ");
                s.append(path.as_str());
                s
            },
        }
    }
}

} // verus!
