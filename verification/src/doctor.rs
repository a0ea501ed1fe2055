//! The `doctor` operation: a read-then-repair consistency sweep.
//!
//! The shell gathers one observation per server (which files exist, the
//! records they hold, which recorded processes are alive) and asks here
//! what is wrong and which files to remove; it then deletes the files and
//! prints the findings.

use vstd::prelude::*;

use crate::records::{ClientsLock, ServerLock};
use crate::state::ServerState;

verus! {

/// One finding about a server, in the order the checks run.
#[derive(Clone, Copy, Debug, PartialEq, Eq, Structural)]
pub enum Issue {
    /// Stopped, yet one or both lockfiles are present; they are removed.
    StaleLockfiles { server: bool, clients: bool },
    /// The recorded server process is dead though its lockfile exists;
    /// both files are removed.
    DeadServerProcess { pid: i32 },
    /// The recorded watcher process is not running.  Not repaired: a
    /// watcher that exited normally after server death is indistinguishable
    /// from a crashed one without further evidence.
    DeadWatcher { pid: i32 },
    /// Active, yet no clients record could be read.
    ActiveWithoutClientsFile,
    /// Some recorded clients are dead.  Not repaired here: the detach path
    /// and the watcher sweep own their removal.
    DeadClients { count: usize },
    /// The stored refcount disagrees with the number of recorded clients;
    /// the diagnosis carries the repaired record to write back.
    RefcountMismatch { refcount: u32, actual: usize },
    /// Active with no clients at all; such a server belongs in Grace.
    ActiveWithNoClients,
    /// In Grace, yet a clients record with clients is present.
    GraceWithClients { refcount: u32, count: usize },
}

/// What one server's check found, which files must go, and the repaired
/// clients record to write back where the refcount drifted.
#[derive(Debug)]
pub struct Diagnosis {
    pub issues: Vec<Issue>,
    pub remove_server_lock: bool,
    pub remove_clients_lock: bool,
    /// Present exactly when the server is Active and its clients record's
    /// refcount disagrees with the entry count: the same entries with the
    /// refcount repaired to their number, to be written back under the
    /// file's exclusive lock.
    pub repaired_clients: Option<ClientsLock>,
}

/// The findings for one observation, in check order.
pub open spec fn spec_doctor_issues(
    state: ServerState,
    has_server_lock: bool,
    has_clients_lock: bool,
    server: Option<ServerLock>,
    server_alive: bool,
    watcher_alive: bool,
    clients: Option<ClientsLock>,
    dead_count: nat,
) -> Seq<Issue> {
    if state is Stopped {
        if has_server_lock || has_clients_lock {
            seq![
                (Issue::StaleLockfiles { server: has_server_lock, clients: has_clients_lock }),
            ]
        } else {
            Seq::empty()
        }
    } else {
        let rec = server.unwrap();
        (if !server_alive {
            seq![(Issue::DeadServerProcess { pid: rec.pid })]
        } else {
            Seq::empty()
        }) + (match rec.watcher_pid {
            Option::Some(wpid) => if !watcher_alive {
                seq![(Issue::DeadWatcher { pid: wpid })]
            } else {
                Seq::empty()
            },
            Option::None => Seq::empty(),
        }) + (if state is Active {
            match clients {
                Option::None => seq![Issue::ActiveWithoutClientsFile],
                Option::Some(c) => (if dead_count > 0 {
                    seq![(Issue::DeadClients { count: dead_count as usize })]
                } else {
                    Seq::empty()
                }) + (if c.refcount != c.clients@.len() {
                    seq![
                        (Issue::RefcountMismatch {
                            refcount: c.refcount,
                            actual: c.clients@.len() as usize,
                        }),
                    ]
                } else {
                    Seq::empty()
                }) + (if c.refcount == 0 && c.clients@.len() == 0 {
                    seq![Issue::ActiveWithNoClients]
                } else {
                    Seq::empty()
                }),
            }
        } else {
            Seq::empty()
        }) + (if state is Grace && has_clients_lock {
            match clients {
                Option::Some(c) => if c.refcount > 0 || c.clients@.len() > 0 {
                    seq![
                        (Issue::GraceWithClients {
                            refcount: c.refcount,
                            count: c.clients@.len() as usize,
                        }),
                    ]
                } else {
                    Seq::empty()
                },
                Option::None => Seq::empty(),
            }
        } else {
            Seq::empty()
        })
    }
}

/// Validate one server's observation and decide the repairs.
///
/// `server` is the record read when the state is not Stopped; `clients` is
/// the clients record read when the state is Active (or, in Grace, when the
/// file unexpectedly exists); `dead_clients` are the recorded client PIDs
/// found dead by the probe.  Files are removed when the server is stopped
/// but files linger, or when the recorded server process is dead; a
/// drifted refcount on an Active server is repaired through
/// `repaired_clients`.
pub fn check_server(
    state: ServerState,
    has_server_lock: bool,
    has_clients_lock: bool,
    server: Option<&ServerLock>,
    server_alive: bool,
    watcher_alive: bool,
    clients: Option<ClientsLock>,
    dead_clients: &Vec<i32>,
) -> (d: Diagnosis)
    requires
        !(state is Stopped) ==> (server matches Some(rec)),
        clients matches Some(c) ==> c.pids_unique() && c.clients@.len() <= u32::MAX,
    ensures
        d.issues@ == spec_doctor_issues(
            state,
            has_server_lock,
            has_clients_lock,
            match server {
                Option::Some(rec) => Some(*rec),
                Option::None => None,
            },
            server_alive,
            watcher_alive,
            clients,
            dead_clients@.len(),
        ),
        state is Stopped ==> d.remove_server_lock == has_server_lock && d.remove_clients_lock
            == has_clients_lock,
        !(state is Stopped) ==> d.remove_server_lock == !server_alive && d.remove_clients_lock
            == !server_alive,
        (d.repaired_clients is Some) <==> (state is Active && (clients matches Some(c)
            && c.refcount != c.clients@.len())),
        d.repaired_clients matches Some(rc) ==> (clients matches Some(c) && rc.clients@
            == c.clients@ && rc.refcount == c.clients@.len() && rc.wf()),
{
    let mut issues: Vec<Issue> = Vec::new();
    match state {
        ServerState::Stopped => {
            if has_server_lock || has_clients_lock {
                issues.push(
                    Issue::StaleLockfiles { server: has_server_lock, clients: has_clients_lock },
                );
            }
            proof {
                assert(issues@ =~= spec_doctor_issues(
                    state,
                    has_server_lock,
                    has_clients_lock,
                    match server {
                        Option::Some(rec) => Some(*rec),
                        Option::None => None,
                    },
                    server_alive,
                    watcher_alive,
                    clients,
                    dead_clients@.len(),
                ));
            }
            Diagnosis {
                issues,
                remove_server_lock: has_server_lock,
                remove_clients_lock: has_clients_lock,
                repaired_clients: None,
            }
        },
        ServerState::Active | ServerState::Grace => {
            let rec = server.unwrap();
            if !server_alive {
                issues.push(Issue::DeadServerProcess { pid: rec.pid });
            }
            match rec.watcher_pid {
                Some(wpid) => {
                    if !watcher_alive {
                        issues.push(Issue::DeadWatcher { pid: wpid });
                    }
                },
                None => {},
            }
            let mut repaired_clients: Option<ClientsLock> = None;
            match state {
                ServerState::Active => {
                    match clients {
                        None => {
                            issues.push(Issue::ActiveWithoutClientsFile);
                        },
                        Some(c) => {
                            let actual = c.clients.len();
                            if dead_clients.len() > 0 {
                                issues.push(Issue::DeadClients { count: dead_clients.len() });
                            }
                            let mismatch = c.refcount as usize != actual;
                            if mismatch {
                                issues.push(
                                    Issue::RefcountMismatch { refcount: c.refcount, actual },
                                );
                            }
                            if c.refcount == 0 && actual == 0 {
                                issues.push(Issue::ActiveWithNoClients);
                            }
                            if mismatch {
                                repaired_clients = Some(
                                    ClientsLock { refcount: actual as u32, clients: c.clients },
                                );
                            }
                        },
                    }
                },
                _ => {
                    if has_clients_lock {
                        match &clients {
                            Some(c) => {
                                if c.refcount > 0 || c.clients.len() > 0 {
                                    issues.push(
                                        Issue::GraceWithClients {
                                            refcount: c.refcount,
                                            count: c.clients.len(),
                                        },
                                    );
                                }
                            },
                            None => {},
                        }
                    }
                },
            }
            proof {
                assert(issues@ =~= spec_doctor_issues(
                    state,
                    has_server_lock,
                    has_clients_lock,
                    match server {
                        Option::Some(rec) => Some(*rec),
                        Option::None => None,
                    },
                    server_alive,
                    watcher_alive,
                    clients,
                    dead_clients@.len(),
                ));
            }
            Diagnosis {
                issues,
                remove_server_lock: !server_alive,
                remove_clients_lock: !server_alive,
                repaired_clients,
            }
        },
    }
}

/// The server name a lockfile directory entry stands for: `Some(name)`
/// exactly for file names of the shape `<name>.server.json`.
pub fn server_name_of_file(filename: &str) -> (r: Option<String>)
    ensures
        match r {
            Option::Some(name) => filename@.len() >= ".server.json"@.len() && name@ == filename@
                .subrange(0, filename@.len() - ".server.json"@.len()) && filename@.subrange(
                filename@.len() - ".server.json"@.len(),
                filename@.len() as int,
            ) == ".server.json"@,
            Option::None => filename@.len() < ".server.json"@.len() || filename@.subrange(
                filename@.len() - ".server.json"@.len(),
                filename@.len() as int,
            ) != ".server.json"@,
        },
{
    let suffix = ".server.json";
    proof {
        reveal_strlit(".server.json");
    }
    let n = filename.unicode_len();
    if n < 12 {
        return None;
    }
    let start = n - 12;
    let mut i: usize = 0;
    while i < 12
        invariant
            n == filename@.len(),
            12 <= n,
            start == n - 12,
            i <= 12,
            suffix@ == ".server.json"@,
            suffix@.len() == 12,
            forall|j: int| 0 <= j < i ==> filename@[start + j] == ".server.json"@[j],
        decreases 12 - i,
    {
        let fc = filename.get_char(start + i);
        let sc = suffix.get_char(i);
        if fc != sc {
            proof {
                let tail = filename@.subrange(n - 12, n as int);
                assert(tail[i as int] == filename@[start + i]);
                assert(tail != ".server.json"@);
            }
            return None;
        }
        i = i + 1;
    }
    let name = filename.substring_char(0, start).to_owned();
    proof {
        assert(filename@.subrange(n - 12, n as int) =~= ".server.json"@);
    }
    Some(name)
}

} // verus!
