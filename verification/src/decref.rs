//! Detaching a client: the `decref` operation.

use vstd::prelude::*;

use crate::error::Error;
use crate::records::ClientsLock;
use crate::state::ServerState;

verus! {

/// Outcome of a successful detach.
#[derive(Debug)]
pub struct DecrefResult {
    /// The clients record after the detach; written back unless
    /// `delete_file` asks for the file to be removed instead.
    pub record: ClientsLock,
    /// The refcount after the detach, as reported to the caller.
    pub new_refcount: u32,
    /// Whether the stored refcount disagreed with the entry count and was
    /// repaired to it (worth a warning).
    pub repaired: bool,
    /// Whether the refcount reached 0, so the clients file must be deleted
    /// (after the lock is released) to start the grace period.
    pub delete_file: bool,
}

/// What `decrement_refcount` promises: the entry for `pid` leaves the
/// record, the refcount is set to the remaining entry count (repairing any
/// drift), and the file is deleted exactly when no client remains.  `name`
/// is the server's name, which a refusal carries.
pub open spec fn decref_post(
    clients: ClientsLock,
    pid: i32,
    name: Seq<char>,
    r: Result<DecrefResult, Error>,
) -> bool {
    &&& ((r is Err) <==> !clients.contains_pid(pid))
    &&& (r matches Err(e) ==> e matches Error::NotAttached { pid: p, name: n } && p == pid && n@
        == name)
    &&& (r matches Ok(d) ==> {
        &&& d.record.clients@ == clients.clients@.remove(clients.spec_index_of(pid))
        &&& d.record.clients@.len() == clients.clients@.len() - 1
        &&& d.record.wf()
        &&& d.new_refcount == d.record.refcount
        &&& (forall|p: i32| d.record.contains_pid(p) <==> (clients.contains_pid(p) && p != pid))
        &&& (d.delete_file <==> d.new_refcount == 0)
        &&& (d.repaired <==> (if clients.refcount > 0 {
            clients.refcount - 1
        } else {
            0int
        }) != clients.clients@.len() - 1)
    })
}

/// Core transition of `decref`: remove `pid` from the record, decrement the
/// refcount (saturating at 0), then repair the refcount to the entry count
/// if the two disagree.
pub fn decrement_refcount(name: &str, clients: ClientsLock, client_pid: i32) -> (r: Result<
    DecrefResult,
    Error,
>)
    requires
        clients.pids_unique(),
        clients.clients@.len() <= u32::MAX,
    ensures
        decref_post(clients, client_pid, name@, r),
{
    let mut record = clients;
    let removed = record.remove_pid(client_pid);
    if !removed {
        return Err(Error::NotAttached { pid: client_pid, name: name.to_owned() });
    }
    let decremented: u32 = if record.refcount > 0 {
        record.refcount - 1
    } else {
        0
    };
    let actual: u32 = record.clients.len() as u32;
    let repaired = decremented != actual;
    record.refcount = actual;
    Ok(
        DecrefResult {
            record,
            new_refcount: actual,
            repaired,
            delete_file: actual == 0,
        },
    )
}

/// The `decref` command: refuse when the server is not running or already
/// in its grace period; detach otherwise.  `clients` is what was read under
/// the exclusive lock; the caller only reads it when the state is Active.
pub fn execute(
    name: &str,
    state: ServerState,
    clients: Option<ClientsLock>,
    client_pid: i32,
) -> (r: Result<DecrefResult, Error>)
    requires
        state is Active ==> (clients matches Some(c) && c.pids_unique() && c.clients@.len()
            <= u32::MAX),
    ensures
        state is Stopped ==> (r matches Err(e) && e is NotRunning),
        state is Grace ==> (r matches Err(e) && e is AlreadyDetached),
        state is Active ==> (clients matches Some(c) ==> decref_post(c, client_pid, name@, r)),
{
    match state {
        ServerState::Stopped => Err(Error::NotRunning),
        ServerState::Grace => Err(Error::AlreadyDetached),
        ServerState::Active => decrement_refcount(name, clients.unwrap(), client_pid),
    }
}

/// Refcount consistency: every completed detach leaves the stored refcount
/// equal to the number of remaining clients, whatever drift the record
/// carried before.
pub proof fn lemma_refcount_consistency_decref(
    clients: ClientsLock,
    pid: i32,
    name: Seq<char>,
    r: Result<DecrefResult, Error>,
)
    requires
        decref_post(clients, pid, name, r),
    ensures
        r matches Ok(d) ==> d.record.refcount == d.record.clients@.len(),
{
}

} // verus!
