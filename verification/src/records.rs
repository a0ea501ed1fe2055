//! The two on-disk records kept per server name, as plain values.
//!
//! Timestamps are carried as unix seconds; the shell converts to and from its
//! wall-clock representation at the file boundary.  The clients record keeps
//! its attachments as a vector of entries with pairwise-distinct PIDs; this
//! carries the same information as the mapping in the file, with the key
//! uniqueness stated as an invariant.

use vstd::prelude::*;

verus! {

/// The server record: exists while a launch has been recorded and not yet
/// fully torn down.
#[derive(Clone, Debug)]
pub struct ServerLock {
    /// PID of the server process (the launch initiator's PID until the
    /// watcher installs the real one).
    pub pid: i32,
    /// Argv used to exec the server.
    pub command: Vec<String>,
    /// The original duration token; the authoritative duration is parsed
    /// from it.
    pub grace_period: String,
    /// PID of the watcher once the double fork has completed.
    pub watcher_pid: Option<i32>,
    /// Unix seconds at which the launch was recorded.
    pub started_at: i64,
}

/// What is recorded about one attached client.
#[derive(Clone, Debug)]
pub struct ClientInfo {
    /// Unix seconds at which the client attached.
    pub attached_at: i64,
    /// Free-form caller-supplied tag.
    pub metadata: Option<String>,
}

impl ClientInfo {
    pub fn new(attached_at: i64, metadata: Option<String>) -> (r: Self)
        ensures
            r.attached_at == attached_at,
            r.metadata == metadata,
    {
        ClientInfo { attached_at, metadata }
    }
}

/// One attachment: a client PID and what is recorded about it.
#[derive(Clone, Debug)]
pub struct ClientEntry {
    pub pid: i32,
    pub info: ClientInfo,
}

/// The clients record: exists while the refcount is positive.  In a
/// consistent record the refcount equals the number of entries; a writer that
/// observes a mismatch repairs it before unlocking.
#[derive(Clone, Debug)]
pub struct ClientsLock {
    pub refcount: u32,
    pub clients: Vec<ClientEntry>,
}

impl ClientsLock {
    /// Whether `pid` is recorded as attached.
    pub open spec fn contains_pid(self, pid: i32) -> bool {
        exists|i: int| 0 <= i < self.clients@.len() && self.clients@[i].pid == pid
    }

    /// The entries record pairwise-distinct PIDs, as the mapping in the file
    /// does by construction.
    pub open spec fn pids_unique(self) -> bool {
        forall|i: int, j: int|
            0 <= i < j < self.clients@.len() ==> self.clients@[i].pid != self.clients@[j].pid
    }

    /// The refcount agrees with the number of recorded clients.
    pub open spec fn consistent(self) -> bool {
        self.refcount == self.clients@.len()
    }

    /// A well-formed record: distinct PIDs and an agreeing refcount.
    pub open spec fn wf(self) -> bool {
        self.pids_unique() && self.consistent()
    }

    /// The position of the entry recording `pid` (meaningful only when
    /// `contains_pid(pid)` holds and the PIDs are distinct).
    pub open spec fn spec_index_of(self, pid: i32) -> int {
        choose|i: int| 0 <= i < self.clients@.len() && self.clients@[i].pid == pid
    }

    /// An empty record with refcount 0.
    pub fn new() -> (r: Self)
        ensures
            r.refcount == 0,
            r.clients@.len() == 0,
            r.wf(),
    {
        ClientsLock { refcount: 0, clients: Vec::new() }
    }

    /// Position of the entry recording `pid`, if one exists.
    pub fn find_pid(&self, pid: i32) -> (r: Option<usize>)
        requires
            self.pids_unique(),
        ensures
            match r {
                Some(i) => self.contains_pid(pid) && i == self.spec_index_of(pid)
                    && i < self.clients@.len() && self.clients@[i as int].pid == pid,
                None => !self.contains_pid(pid),
            },
    {
        let mut i: usize = 0;
        while i < self.clients.len()
            invariant
                self.pids_unique(),
                i <= self.clients@.len(),
                forall|j: int| 0 <= j < i ==> self.clients@[j].pid != pid,
            decreases self.clients@.len() - i,
        {
            if self.clients[i].pid == pid {
                proof {
                    assert(self.contains_pid(pid));
                    let w = self.spec_index_of(pid);
                    assert(0 <= w < self.clients@.len() && self.clients@[w].pid == pid);
                    assert(w == i as int);
                }
                return Some(i);
            }
            i = i + 1;
        }
        None
    }

    /// Record `pid` with `info`: overwrite the existing entry for `pid` if
    /// one exists, append a new entry otherwise.  The refcount is not
    /// touched.
    pub fn insert_client(&mut self, pid: i32, info: ClientInfo)
        requires
            old(self).pids_unique(),
        ensures
            final(self).refcount == old(self).refcount,
            old(self).contains_pid(pid) ==> final(self).clients@ == old(self).clients@.update(
                old(self).spec_index_of(pid),
                (ClientEntry { pid, info }),
            ),
            !old(self).contains_pid(pid) ==> final(self).clients@ == old(self).clients@.push(
                (ClientEntry { pid, info }),
            ),
            final(self).contains_pid(pid),
            forall|p: i32| final(self).contains_pid(p) <==> (old(self).contains_pid(p) || p == pid),
            final(self).pids_unique(),
            final(self).clients@.len() == if old(self).contains_pid(pid) {
                old(self).clients@.len()
            } else {
                old(self).clients@.len() + 1
            },
    {
        let entry = ClientEntry { pid, info };
        match self.find_pid(pid) {
            Some(i) => {
                self.clients.set(i, entry);
                proof {
                    let s = self.clients@;
                    let olds = old(self).clients@;
                    assert forall|p: i32| self.contains_pid(p) <==> (old(self).contains_pid(p) || p
                        == pid) by {
                        if self.contains_pid(p) {
                            let w = choose|k: int|
                                0 <= k < s.len() && s[k].pid == p;
                            if w == i as int {
                            } else {
                                assert(olds[w].pid == p);
                            }
                        }
                        if old(self).contains_pid(p) || p == pid {
                            if p == pid {
                                assert(s[i as int].pid == p);
                            } else {
                                let w = choose|k: int|
                                    0 <= k < olds.len() && olds[k].pid == p;
                                assert(w != i as int);
                                assert(s[w].pid == p);
                            }
                        }
                    }
                }
            },
            None => {
                self.clients.push(entry);
                proof {
                    let s = self.clients@;
                    let olds = old(self).clients@;
                    assert(s[s.len() - 1].pid == pid);
                    assert forall|p: i32| self.contains_pid(p) <==> (old(self).contains_pid(p) || p
                        == pid) by {
                        if self.contains_pid(p) {
                            let w = choose|k: int|
                                0 <= k < s.len() && s[k].pid == p;
                            if w < s.len() - 1 {
                                assert(olds[w].pid == p);
                            }
                        }
                        if old(self).contains_pid(p) {
                            let w = choose|k: int|
                                0 <= k < olds.len() && olds[k].pid == p;
                            assert(s[w].pid == p);
                        }
                    }
                }
            },
        }
    }

    /// Remove the entry recording `pid`, if any; report whether one was
    /// removed.  The refcount is not touched.
    pub fn remove_pid(&mut self, pid: i32) -> (removed: bool)
        requires
            old(self).pids_unique(),
        ensures
            removed == old(self).contains_pid(pid),
            removed ==> final(self).clients@ == old(self).clients@.remove(
                old(self).spec_index_of(pid),
            ),
            !removed ==> *final(self) == *old(self),
            final(self).refcount == old(self).refcount,
            !final(self).contains_pid(pid),
            forall|p: i32| final(self).contains_pid(p) <==> (old(self).contains_pid(p) && p != pid),
            final(self).pids_unique(),
            final(self).clients@.len() == if old(self).contains_pid(pid) {
                old(self).clients@.len() - 1
            } else {
                old(self).clients@.len() as int
            },
    {
        match self.find_pid(pid) {
            Some(i) => {
                self.clients.remove(i);
                proof {
                    let s = self.clients@;
                    let olds = old(self).clients@;
                    let ii = i as int;
                    assert forall|p: i32| self.contains_pid(p) <==> (old(self).contains_pid(p) && p
                        != pid) by {
                        if self.contains_pid(p) {
                            let w = choose|k: int|
                                0 <= k < s.len() && s[k].pid == p;
                            if w < ii {
                                assert(olds[w].pid == p);
                            } else {
                                assert(olds[w + 1].pid == p);
                            }
                        }
                        if old(self).contains_pid(p) && p != pid {
                            let w = choose|k: int|
                                0 <= k < olds.len() && olds[k].pid == p;
                            assert(w != ii);
                            if w < ii {
                                assert(s[w].pid == p);
                            } else {
                                assert(s[w - 1].pid == p);
                            }
                        }
                    }
                    assert forall|a: int, b: int|
                        0 <= a < b < s.len() implies s[a].pid != s[b].pid by {
                        let a0 = if a < ii { a } else { a + 1 };
                        let b0 = if b < ii { b } else { b + 1 };
                        assert(s[a] == olds[a0]);
                        assert(s[b] == olds[b0]);
                    }
                }
                true
            },
            None => false,
        }
    }
}

} // verus!
