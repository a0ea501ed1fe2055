//! Attaching a client: the `incref` operation.

use vstd::prelude::*;

use crate::error::Error;
use crate::records::{ClientEntry, ClientInfo, ClientsLock};
use crate::state::ServerState;

verus! {

/// Outcome of a successful attach.
#[derive(Debug)]
pub struct IncrefResult {
    /// The clients record to write back (or create, when none existed).
    pub record: ClientsLock,
    /// The refcount after the attach, as reported to the caller.
    pub new_refcount: u32,
}

/// What `increment_refcount` promises: with no clients record (the server
/// was in Grace) a fresh record with this single client; otherwise the
/// entry for `pid` is inserted or overwritten.  Either way the written
/// record is well-formed — the refcount equals the entry count, any drift
/// the record carried (or that an overwrite would cause) repaired before it
/// is handed back for the write.
pub open spec fn incref_post(
    clients: Option<ClientsLock>,
    pid: i32,
    info: ClientInfo,
    r: IncrefResult,
) -> bool {
    &&& r.new_refcount == r.record.refcount
    &&& r.record.contains_pid(pid)
    &&& r.record.wf()
    &&& match clients {
        Option::Some(c) => {
            &&& (forall|p: i32| r.record.contains_pid(p) <==> (c.contains_pid(p) || p == pid))
            &&& (!c.contains_pid(pid) ==> r.record.clients@ == c.clients@.push(
                (ClientEntry { pid, info }),
            ))
            &&& (c.contains_pid(pid) ==> r.record.clients@ == c.clients@.update(
                c.spec_index_of(pid),
                (ClientEntry { pid, info }),
            ))
            &&& ((c.wf() && !c.contains_pid(pid)) ==> r.record.refcount == c.refcount + 1)
        },
        Option::None => {
            &&& r.record.refcount == 1
            &&& r.record.clients@.len() == 1
            &&& r.record.clients@[0] == (ClientEntry { pid, info })
        },
    }
}

/// Core transition of `incref`.  `clients` is `None` when no clients file
/// exists (the server is in Grace); the attach then recreates the record
/// with refcount 1.  Otherwise the entry for `pid` is inserted or
/// overwritten and the refcount set to the resulting entry count: a writer
/// that would otherwise leave (or observed) a mismatch repairs it before
/// unlocking.
pub fn increment_refcount(clients: Option<ClientsLock>, pid: i32, info: ClientInfo) -> (r:
    IncrefResult)
    requires
        clients matches Some(c) ==> c.pids_unique() && c.clients@.len() < u32::MAX,
    ensures
        incref_post(clients, pid, info, r),
{
    match clients {
        None => {
            let mut record = ClientsLock::new();
            record.refcount = 1;
            record.insert_client(pid, info);
            IncrefResult { new_refcount: record.refcount, record }
        },
        Some(mut record) => {
            record.insert_client(pid, info);
            record.refcount = record.clients.len() as u32;
            IncrefResult { new_refcount: record.refcount, record }
        },
    }
}

/// The `incref` command: refuse when the server is not running, attach
/// otherwise.  `clients` is what was read under the lock, `None` when the
/// clients file is absent.
pub fn execute(
    state: ServerState,
    clients: Option<ClientsLock>,
    client_pid: i32,
    info: ClientInfo,
) -> (r: Result<IncrefResult, Error>)
    requires
        clients matches Some(c) ==> c.pids_unique() && c.clients@.len() < u32::MAX,
    ensures
        state is Stopped <==> (r matches Err(e) && e is NotRunning),
        r is Err ==> state is Stopped,
        !(state is Stopped) ==> (r matches Ok(res) && incref_post(clients, client_pid, info, res)),
{
    match state {
        ServerState::Stopped => Err(Error::NotRunning),
        ServerState::Active | ServerState::Grace => Ok(
            increment_refcount(clients, client_pid, info),
        ),
    }
}

/// Refcount consistency: after any completed attach the stored refcount
/// equals the number of recorded clients, whatever the record held before
/// and whether or not the client was already attached.
pub proof fn lemma_refcount_consistency_incref(
    clients: Option<ClientsLock>,
    pid: i32,
    info: ClientInfo,
    r: IncrefResult,
)
    requires
        incref_post(clients, pid, info, r),
    ensures
        r.record.refcount == r.record.clients@.len(),
{
}

} // verus!
