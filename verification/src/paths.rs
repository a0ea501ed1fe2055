//! Locations of the per-server files inside the lockfile directory.
//!
//! The directory itself is resolved and created by the shell (it depends on
//! the process environment); these functions only assemble and probe paths.

use vstd::prelude::*;

verus! {

/// Resolve the lockfile directory from the two optional environment
/// values: an explicit override wins, else the runtime directory gains a
/// `sharedserver` subdirectory, else a fixed fallback.  The shell reads the
/// environment and creates the directory.
pub fn lockfile_dir(lockdir: Option<String>, xdg_runtime: Option<String>) -> (r: String)
    ensures
        lockdir matches Some(d) ==> r@ == d@,
        lockdir is None ==> (xdg_runtime matches Some(x) ==> r@ == x@ + "/sharedserver"@),
        lockdir is None && xdg_runtime is None ==> r@ == "/tmp/sharedserver"@,
{
    match lockdir {
        Some(d) => d,
        None => match xdg_runtime {
            Some(x) => {
                let mut s = x;
                s.append("/sharedserver");
                s
            },
            None => "/tmp/sharedserver".to_owned(),
        },
    }
}

/// Path of the server record for `name` under the lockfile directory `dir`.
pub open spec fn spec_server_lockfile_path(dir: Seq<char>, name: Seq<char>) -> Seq<char> {
    dir + "/"@ + name + ".server.json"@
}

/// Path of the clients record for `name` under the lockfile directory `dir`.
pub open spec fn spec_clients_lockfile_path(dir: Seq<char>, name: Seq<char>) -> Seq<char> {
    dir + "/"@ + name + ".clients.json"@
}

/// Path of the append-only invocation log for `name` under the lockfile
/// directory `dir`.
pub open spec fn spec_invocation_log_path(dir: Seq<char>, name: Seq<char>) -> Seq<char> {
    dir + "/"@ + name + ".invocations.log"@
}

/// Where the server record of `name` lives under `dir`.
pub fn server_lockfile_path(dir: &str, name: &str) -> (r: String)
    ensures
        r@ == spec_server_lockfile_path(dir@, name@),
{
    let mut s = dir.to_owned();
    s.append("/");
    s.append(name);
    s.append(".server.json");
    s
}

/// Where the clients record of `name` lives under `dir`.
pub fn clients_lockfile_path(dir: &str, name: &str) -> (r: String)
    ensures
        r@ == spec_clients_lockfile_path(dir@, name@),
{
    let mut s = dir.to_owned();
    s.append("/");
    s.append(name);
    s.append(".clients.json");
    s
}

/// Where the invocation log of `name` lives under `dir`.
pub fn invocation_log_path(dir: &str, name: &str) -> (r: String)
    ensures
        r@ == spec_invocation_log_path(dir@, name@),
{
    let mut s = dir.to_owned();
    s.append("/");
    s.append(name);
    s.append(".invocations.log");
    s
}

/// Relies on std::path::Path::exists: whether `path` names an existing file
/// at this instant.  Disk state is outside the program and may change
/// between two calls, so nothing is promised of the result.
#[verifier::external_body]
fn path_exists(path: &str) -> bool {
    std::path::Path::new(path).exists()
}

/// Whether the server record of `name` is present under `dir`.  The result
/// is one observation of disk state.
pub fn server_lock_exists(dir: &str, name: &str) -> bool {
    let path = server_lockfile_path(dir, name);
    path_exists(path.as_str())
}

/// Whether the clients record of `name` is present under `dir`.  The result
/// is one observation of disk state.
pub fn clients_lock_exists(dir: &str, name: &str) -> bool {
    let path = clients_lockfile_path(dir, name);
    path_exists(path.as_str())
}

} // verus!
