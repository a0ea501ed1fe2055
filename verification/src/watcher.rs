//! The watcher: the one long-lived process per server and the sole holder
//! of the grace timer.
//!
//! Each poll the watcher checks that the server is alive, sweeps dead
//! clients out of the clients record, and runs the grace timer.  The shell
//! owns the sleeping, the file locks around the sweep and the kill
//! sequence; every decision of an iteration is taken here.

use vstd::prelude::*;

use crate::health::is_process_alive;
use crate::records::{ClientEntry, ClientsLock};

verus! {

/// Entries that a sweep against `dead` keeps.
pub open spec fn survives(dead: Seq<i32>) -> spec_fn(ClientEntry) -> bool {
    |e: ClientEntry| !dead.contains(e.pid)
}

/// Whether some entry of `s` records `pid`.
pub open spec fn seq_contains_pid(s: Seq<ClientEntry>, pid: i32) -> bool {
    exists|j: int| 0 <= j < s.len() && s[j].pid == pid
}

fn dead_list_contains(dead: &Vec<i32>, pid: i32) -> (r: bool)
    ensures
        r == dead@.contains(pid),
{
    let mut i: usize = 0;
    while i < dead.len()
        invariant
            i <= dead@.len(),
            forall|j: int| 0 <= j < i ==> dead@[j] != pid,
        decreases dead@.len() - i,
    {
        if dead[i] == pid {
            return true;
        }
        i = i + 1;
    }
    false
}

/// Probe every recorded client once and gather the PIDs found dead.
/// Liveness is an outside observation, so only this much holds of the
/// result: every gathered PID is recorded, each at most once.
pub fn collect_dead_clients(clients: &ClientsLock) -> (dead: Vec<i32>)
    requires
        clients.pids_unique(),
    ensures
        forall|k: int| 0 <= k < dead@.len() ==> clients.contains_pid(#[trigger] dead@[k]),
        forall|k1: int, k2: int| 0 <= k1 < k2 < dead@.len() ==> dead@[k1] != dead@[k2],
{
    let mut dead: Vec<i32> = Vec::new();
    let mut i: usize = 0;
    while i < clients.clients.len()
        invariant
            clients.pids_unique(),
            i <= clients.clients@.len(),
            forall|k: int| 0 <= k < dead@.len() ==> clients.contains_pid(#[trigger] dead@[k]),
            forall|k: int| 0 <= k < dead@.len() ==> exists|j: int|
                0 <= j < i && clients.clients@[j].pid == #[trigger] dead@[k],
            forall|k1: int, k2: int| 0 <= k1 < k2 < dead@.len() ==> dead@[k1] != dead@[k2],
        decreases clients.clients@.len() - i,
    {
        let pid = clients.clients[i].pid;
        if !is_process_alive(pid) {
            proof {
                assert forall|k: int| 0 <= k < dead@.len() implies dead@[k] != pid by {
                    let j = choose|j: int|
                        0 <= j < i && clients.clients@[j].pid == dead@[k];
                    assert(clients.clients@[j].pid != clients.clients@[i as int].pid);
                }
            }
            dead.push(pid);
        }
        i = i + 1;
    }
    dead
}

/// Outcome of the exclusive phase of the dead-client sweep.
#[derive(Debug)]
pub struct SweepOutcome {
    /// The record after removing dead clients, with the refcount repaired
    /// to the remaining entry count whenever anything was removed.
    pub record: ClientsLock,
    /// Whether anything was removed; only then must the file be written
    /// back or deleted.
    pub changed: bool,
    /// Whether no client remains: the file is deleted (after the lock is
    /// released) so the grace period begins.
    pub delete_file: bool,
    /// What the watcher learns: whether live clients remain.
    pub has_clients: bool,
}

/// What `sweep_clients` promises of its outcome.
pub open spec fn sweep_post(clients: ClientsLock, dead: Seq<i32>, r: SweepOutcome) -> bool {
    &&& r.record.clients@ == clients.clients@.filter(survives(dead))
    &&& (forall|p: i32| r.record.contains_pid(p) <==> (clients.contains_pid(p) && !dead.contains(
        p,
    )))
    &&& r.record.pids_unique()
    &&& r.changed == (r.record.clients@.len() != clients.clients@.len())
    &&& (r.changed ==> r.record.wf())
    &&& (!r.changed ==> r.record.refcount == clients.refcount)
    &&& r.delete_file == (r.changed && r.record.clients@.len() == 0)
    &&& r.has_clients == if r.changed {
        r.record.clients@.len() > 0
    } else {
        clients.refcount > 0
    }
}

/// Remove from the (re-read) clients record every entry whose PID is in
/// `dead`; survivors keep their order.  If nothing was removed the record
/// is left exactly as read, refcount included: the decref path owns drift
/// repair in that case.
pub fn sweep_clients(clients: ClientsLock, dead: &Vec<i32>) -> (r: SweepOutcome)
    requires
        clients.pids_unique(),
        clients.clients@.len() <= u32::MAX,
    ensures
        sweep_post(clients, dead@, r),
{
    let ghost s = clients.clients@;
    let ghost pred = survives(dead@);
    let initial_refcount = clients.refcount;
    let original_len = clients.clients.len();
    let mut remaining = clients.clients;
    let mut kept: Vec<ClientEntry> = Vec::new();
    while remaining.len() > 0
        invariant
            s.len() <= u32::MAX,
            remaining@.len() <= s.len(),
            remaining@ == s.subrange(s.len() - remaining@.len(), s.len() as int),
            kept@ == s.subrange(0, s.len() - remaining@.len()).filter(pred),
            pred == survives(dead@),
            forall|i1: int, i2: int| 0 <= i1 < i2 < s.len() ==> s[i1].pid != s[i2].pid,
            forall|p: i32| seq_contains_pid(kept@, p) <==> (seq_contains_pid(
                s.subrange(0, s.len() - remaining@.len()),
                p,
            ) && !dead@.contains(p)),
            forall|k1: int, k2: int| 0 <= k1 < k2 < kept@.len() ==> kept@[k1].pid != kept@[k2].pid,
        decreases remaining@.len(),
    {
        let ghost i = s.len() - remaining@.len();
        let ghost sub_i = s.subrange(0, i);
        let ghost sub_i1 = s.subrange(0, i + 1);
        let e = remaining.remove(0);
        proof {
            assert(e == s[i]);
            assert(remaining@ =~= s.subrange(i + 1, s.len() as int));
            assert(sub_i1.drop_last() =~= sub_i);
            assert(sub_i1.last() == s[i]);
            reveal(Seq::filter);
        }
        let is_dead = dead_list_contains(dead, e.pid);
        if is_dead {
            proof {
                assert(!pred(s[i]));
                assert(sub_i1.filter(pred) == sub_i.filter(pred));
                assert forall|p: i32|
                    seq_contains_pid(kept@, p) <==> (seq_contains_pid(sub_i1, p)
                        && !dead@.contains(p)) by {
                    if seq_contains_pid(sub_i1, p) && !dead@.contains(p) {
                        let j = choose|j: int| 0 <= j < sub_i1.len() && sub_i1[j].pid == p;
                        assert(j < i);
                        assert(seq_contains_pid(sub_i, p));
                    }
                    if seq_contains_pid(kept@, p) {
                        let j = choose|j: int| 0 <= j < sub_i.len() && sub_i[j].pid == p;
                        assert(sub_i1[j].pid == p);
                    }
                }
            }
        } else {
            proof {
                assert(pred(s[i]));
                assert(sub_i1.filter(pred) == sub_i.filter(pred).push(s[i]));
            }
            let ghost kept_before = kept@;
            kept.push(e);
            proof {
                assert forall|p: i32|
                    seq_contains_pid(kept@, p) <==> (seq_contains_pid(sub_i1, p)
                        && !dead@.contains(p)) by {
                    if seq_contains_pid(kept@, p) {
                        let j = choose|j: int| 0 <= j < kept@.len() && kept@[j].pid == p;
                        if j < kept@.len() - 1 {
                            assert(kept_before[j].pid == p);
                            assert(seq_contains_pid(kept_before, p));
                            let w = choose|w: int| 0 <= w < sub_i.len() && sub_i[w].pid == p;
                            assert(sub_i1[w].pid == p);
                        } else {
                            assert(p == s[i].pid);
                            assert(sub_i1[i].pid == p);
                        }
                    }
                    if seq_contains_pid(sub_i1, p) && !dead@.contains(p) {
                        let j = choose|j: int| 0 <= j < sub_i1.len() && sub_i1[j].pid == p;
                        if j < i {
                            assert(seq_contains_pid(sub_i, p));
                            assert(seq_contains_pid(kept_before, p));
                            let w = choose|w: int|
                                0 <= w < kept_before.len() && kept_before[w].pid == p;
                            assert(kept@[w].pid == p);
                        } else {
                            assert(kept@[kept@.len() - 1].pid == p);
                        }
                    }
                }
                assert forall|k1: int, k2: int|
                    0 <= k1 < k2 < kept@.len() implies kept@[k1].pid != kept@[k2].pid by {
                    if k2 == kept@.len() - 1 {
                        assert(kept_before[k1].pid == kept@[k1].pid);
                        assert(seq_contains_pid(kept_before, kept@[k1].pid));
                        let w = choose|w: int|
                            0 <= w < sub_i.len() && sub_i[w].pid == kept@[k1].pid;
                        assert(s[w].pid == kept@[k1].pid);
                        assert(s[w].pid != s[i].pid);
                    }
                }
            }
        }
    }
    proof {
        assert(s.subrange(0, s.len() as int) =~= s);
        broadcast use vstd::seq_lib::group_filter_ensures;

        assert(kept@.len() <= s.len());
    }
    let changed = kept.len() != original_len;
    if changed {
        let count = kept.len() as u32;
        let record = ClientsLock { refcount: count, clients: kept };
        SweepOutcome {
            delete_file: count == 0,
            has_clients: count > 0,
            changed: true,
            record,
        }
    } else {
        let record = ClientsLock { refcount: initial_refcount, clients: kept };
        SweepOutcome {
            delete_file: false,
            has_clients: initial_refcount > 0,
            changed: false,
            record,
        }
    }
}

/// What the watcher does before its first poll.
#[derive(Clone, Copy, Debug, PartialEq, Eq, Structural)]
pub enum WatcherStartup {
    /// The grace token does not parse: exit without touching the files
    /// (the launch initiator still owns them at this point).
    AbortInvalidGrace,
    /// The server record cannot be read (absent, empty or corrupt): fatal
    /// for this server alone — remove both lockfiles and exit.
    CleanupBothAndAbort,
    /// Enter the supervision loop.
    Supervise,
}

/// Decide how the watcher starts, from whether its grace token parsed and
/// whether the server record could be read back.
pub fn watcher_startup(grace_valid: bool, record_readable: bool) -> (r: WatcherStartup)
    ensures
        !grace_valid ==> r == WatcherStartup::AbortInvalidGrace,
        grace_valid && !record_readable ==> r == WatcherStartup::CleanupBothAndAbort,
        grace_valid && record_readable ==> r == WatcherStartup::Supervise,
{
    if !grace_valid {
        WatcherStartup::AbortInvalidGrace
    } else if !record_readable {
        WatcherStartup::CleanupBothAndAbort
    } else {
        WatcherStartup::Supervise
    }
}

/// What one watcher iteration does after its observations.
#[derive(Clone, Copy, Debug, PartialEq, Eq, Structural)]
pub enum WatcherAction {
    /// The server died on its own: remove both lockfiles and exit.  Both
    /// must go, else a later death leaves a stuck Active-looking state.
    CleanupBothAndExit,
    /// The grace period has elapsed with no client: terminate the server
    /// (SIGTERM, a bounded wait, then SIGKILL if still alive), remove the
    /// server record and exit; the clients file is already absent.
    TerminateServerAndExit,
    /// Keep supervising: sleep one poll interval and look again.
    Sleep,
}

/// The decision and the grace timer carried to the next iteration.
#[derive(Debug)]
pub struct WatcherStep {
    pub action: WatcherAction,
    /// The timer after this iteration: `Some(t)` holds the instant, in the
    /// watcher's clock, at which the record last became clientless.
    pub grace_timer: Option<u64>,
}

/// What `watcher_step` promises of its decision.
pub open spec fn watcher_step_post(
    server_alive: bool,
    has_clients: bool,
    grace_timer: Option<u64>,
    now: u64,
    grace_secs: u64,
    r: WatcherStep,
) -> bool {
    &&& (!server_alive ==> r.action == WatcherAction::CleanupBothAndExit)
    &&& (server_alive && has_clients ==> r.action == WatcherAction::Sleep
        && r.grace_timer is None)
    &&& (server_alive && !has_clients && grace_timer is None ==> r.action == WatcherAction::Sleep
        && r.grace_timer == Some(now))
    &&& (server_alive && !has_clients ==> (grace_timer matches Some(t) ==> (if now - t
        >= grace_secs {
        r.action == WatcherAction::TerminateServerAndExit
    } else {
        r.action == WatcherAction::Sleep && r.grace_timer == grace_timer
    })))
}

/// One iteration of the watcher loop.  `server_alive` and `has_clients` are
/// this poll's observations; `now` is the current instant of a monotonic
/// clock, so a set timer never lies in the future.
pub fn watcher_step(
    server_alive: bool,
    has_clients: bool,
    grace_timer: Option<u64>,
    now: u64,
    grace_secs: u64,
) -> (r: WatcherStep)
    requires
        grace_timer matches Some(t) ==> t <= now,
    ensures
        watcher_step_post(server_alive, has_clients, grace_timer, now, grace_secs, r),
{
    if !server_alive {
        WatcherStep { action: WatcherAction::CleanupBothAndExit, grace_timer: None }
    } else if has_clients {
        WatcherStep { action: WatcherAction::Sleep, grace_timer: None }
    } else {
        match grace_timer {
            None => WatcherStep { action: WatcherAction::Sleep, grace_timer: Some(now) },
            Some(started) => {
                if now - started >= grace_secs {
                    WatcherStep {
                        action: WatcherAction::TerminateServerAndExit,
                        grace_timer,
                    }
                } else {
                    WatcherStep { action: WatcherAction::Sleep, grace_timer }
                }
            },
        }
    }
}

/// Refcount consistency: a sweep that removed anything leaves the stored
/// refcount equal to the number of remaining clients.
pub proof fn lemma_refcount_consistency_sweep(clients: ClientsLock, dead: Seq<i32>, r: SweepOutcome)
    requires
        sweep_post(clients, dead, r),
        r.changed,
    ensures
        r.record.refcount == r.record.clients@.len(),
{
}

/// Quick-death cleanup: the poll that finds the server dead removes both
/// lockfiles and exits, whatever the clients record or the timer held.
pub proof fn lemma_quick_death_cleanup(
    has_clients: bool,
    grace_timer: Option<u64>,
    now: u64,
    grace_secs: u64,
    step: WatcherStep,
)
    requires
        watcher_step_post(false, has_clients, grace_timer, now, grace_secs, step),
    ensures
        step.action == WatcherAction::CleanupBothAndExit,
{
}

/// Grace rescue: an attach that completes while the server is in its grace
/// period recreates the clients record with the attaching client, so a
/// sweep that spares that client reports live clients, and the watcher's
/// next poll of a live server cancels its timer and keeps supervising.
pub proof fn lemma_grace_rescue(
    pid: i32,
    info: crate::records::ClientInfo,
    attach: crate::incref::IncrefResult,
    dead: Seq<i32>,
    swept: SweepOutcome,
    grace_timer: Option<u64>,
    now: u64,
    grace_secs: u64,
    step: WatcherStep,
)
    requires
        crate::incref::incref_post(None, pid, info, attach),
        sweep_post(attach.record, dead, swept),
        !dead.contains(pid),
        watcher_step_post(true, swept.has_clients, grace_timer, now, grace_secs, step),
    ensures
        swept.has_clients,
        step.action == WatcherAction::Sleep,
        step.grace_timer is None,
{
    assert(attach.record.contains_pid(pid));
    assert(swept.record.contains_pid(pid));
    assert(swept.record.clients@.len() > 0);
    assert(attach.record.refcount == 1);
}

} // verus!
