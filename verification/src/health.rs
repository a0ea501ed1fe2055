//! The health probe: whether a process with a given PID exists right now.

use vstd::prelude::*;

verus! {

/// Relies on the proc filesystem: `/proc/<pid>/stat` exists exactly while a
/// process with that PID does, readable regardless of ownership.  Liveness
/// is outside the program and may change between two calls, so nothing is
/// promised of the result; every caller states what holds for either answer.
///
/// This is the probe for hosts that provide `/proc`; on one that does not,
/// it answers false for every PID.  A shell for such a host must gather
/// liveness with its own platform probe and hand the answers to the
/// functions that take them as arguments (`get_server_state`,
/// `sweep_clients`, `watcher_step`, `check_server`), which are verified for
/// every answer.
#[verifier::external_body]
pub fn is_process_alive(pid: i32) -> bool {
    std::path::Path::new(&format!("/proc/{}/stat", pid)).exists()
}

} // verus!
