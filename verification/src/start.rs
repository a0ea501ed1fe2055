//! Planning a launch: the compute half of `start` and of `use`'s
//! start-with-client mode.
//!
//! The shell performs the double fork around these functions: it writes the
//! planned records, forks the watcher, which forks the server, installs the
//! real PIDs and supervises; meanwhile the initiator polls the server record
//! until the watcher's update is visible or a timeout passes.

use vstd::prelude::*;

use crate::duration::{parse_duration, spec_parse_duration};
use crate::error::Error;
use crate::records::{ClientEntry, ClientInfo, ClientsLock, ServerLock};
use crate::state::ServerState;

verus! {

/// Everything the shell must do to launch a server.
#[derive(Debug)]
pub struct LaunchPlan {
    /// Stale files recorded by a dead earlier server must be removed before
    /// the new records are written.
    pub clean_stale: bool,
    /// The initial server record: the initiator's PID as placeholder and no
    /// watcher yet.
    pub server_lock: ServerLock,
    /// The initial clients record; present exactly when launching with an
    /// initial client (refcount 1), absent for a bare start (the server
    /// then begins in its grace period).
    pub clients_lock: Option<ClientsLock>,
    /// The grace period in whole seconds, parsed from the token.
    pub grace_secs: u64,
}

/// Whether the duration token is valid and fits in whole seconds.
pub open spec fn spec_valid_grace(token: Seq<char>) -> bool {
    spec_parse_duration(token) matches Some(v) && v <= u64::MAX
}

/// What a successful launch plan contains.
pub open spec fn launch_plan_post(
    has_server_file: bool,
    grace_period: Seq<char>,
    command: Seq<String>,
    initial_client: Option<(i32, Option<String>)>,
    initiator_pid: i32,
    now: i64,
    p: LaunchPlan,
) -> bool {
    &&& p.clean_stale == has_server_file
    &&& p.server_lock.pid == initiator_pid
    &&& p.server_lock.command@ == command
    &&& p.server_lock.grace_period@ == grace_period
    &&& p.server_lock.watcher_pid is None
    &&& p.server_lock.started_at == now
    &&& Some(p.grace_secs as nat) == spec_parse_duration(grace_period)
    &&& match initial_client {
        Option::Some((cpid, meta)) => {
            &&& p.clients_lock matches Some(c)
            &&& (p.clients_lock matches Some(c) ==> {
                &&& c.wf()
                &&& c.refcount == 1
                &&& c.clients@.len() == 1
                &&& c.clients@[0] == (ClientEntry {
                    pid: cpid,
                    info: ClientInfo { attached_at: now, metadata: meta },
                })
            })
        },
        Option::None => p.clients_lock is None,
    }
}

/// The contract shared by the two launch entry points.
pub open spec fn launch_post(
    state: ServerState,
    recorded: Option<ServerLock>,
    has_server_file: bool,
    grace_period: Seq<char>,
    command: Seq<String>,
    initial_client: Option<(i32, Option<String>)>,
    initiator_pid: i32,
    now: i64,
    r: Result<LaunchPlan, Error>,
) -> bool {
    &&& (!spec_valid_grace(grace_period) ==> (r matches Err(e) && e is InvalidDuration))
    &&& (spec_valid_grace(grace_period) && !(state is Stopped) ==> (r matches Err(e) && e matches
        Error::AlreadyRunning { pid, state: s } && recorded matches Some(rec) && pid == rec.pid && s
        == state))
    &&& (spec_valid_grace(grace_period) && state is Stopped && command.len() == 0 ==> (r matches
        Err(e) && e matches Error::InvalidArgv { detail } && detail@
        == "Server command cannot be empty"@))
    &&& (spec_valid_grace(grace_period) && state is Stopped && command.len() > 0 ==> (r matches
        Ok(p) && launch_plan_post(
        has_server_file,
        grace_period,
        command,
        initial_client,
        initiator_pid,
        now,
        p,
    )))
}

/// Plan a launch.  The observation behind `state` must include the recorded
/// server when one is running, so the conflict error can name the live PID.
fn execute_internal(
    state: ServerState,
    recorded: Option<&ServerLock>,
    has_server_file: bool,
    grace_period: &str,
    command: Vec<String>,
    initial_client: Option<(i32, Option<String>)>,
    initiator_pid: i32,
    now: i64,
) -> (r: Result<LaunchPlan, Error>)
    requires
        !(state is Stopped) ==> (recorded matches Some(rec)),
    ensures
        launch_post(
            state,
            match recorded {
                Option::Some(rec) => Some(*rec),
                Option::None => None,
            },
            has_server_file,
            grace_period@,
            command@,
            initial_client,
            initiator_pid,
            now,
            r,
        ),
{
    let grace_secs = match parse_duration(grace_period) {
        Ok(secs) => secs,
        Err(_) => {
            return Err(Error::InvalidDuration);
        },
    };
    match state {
        ServerState::Active | ServerState::Grace => {
            let rec = recorded.unwrap();
            return Err(Error::AlreadyRunning { pid: rec.pid, state });
        },
        ServerState::Stopped => {},
    }
    if command.len() == 0 {
        return Err(Error::InvalidArgv { detail: "Server command cannot be empty".to_owned() });
    }
    let server_lock = ServerLock {
        pid: initiator_pid,
        command,
        grace_period: grace_period.to_owned(),
        watcher_pid: None,
        started_at: now,
    };
    let clients_lock = match initial_client {
        Some((cpid, meta)) => {
            let mut c = ClientsLock::new();
            c.refcount = 1;
            c.insert_client(cpid, ClientInfo::new(now, meta));
            Some(c)
        },
        None => None,
    };
    Ok(
        LaunchPlan {
            clean_stale: has_server_file,
            server_lock,
            clients_lock,
            grace_secs,
        },
    )
}

/// Plan a bare start: no initial client, so the new server begins in its
/// grace period until someone attaches.
pub fn execute(
    state: ServerState,
    recorded: Option<&ServerLock>,
    has_server_file: bool,
    grace_period: &str,
    command: Vec<String>,
    initiator_pid: i32,
    now: i64,
) -> (r: Result<LaunchPlan, Error>)
    requires
        !(state is Stopped) ==> (recorded matches Some(rec)),
    ensures
        launch_post(
            state,
            match recorded {
                Option::Some(rec) => Some(*rec),
                Option::None => None,
            },
            has_server_file,
            grace_period@,
            command@,
            None,
            initiator_pid,
            now,
            r,
        ),
{
    execute_internal(
        state,
        recorded,
        has_server_file,
        grace_period,
        command,
        None,
        initiator_pid,
        now,
    )
}

/// Plan a launch with an initial client attached atomically (refcount 1),
/// as the `use` command requires: the just-launched server must never find
/// itself without clients.
pub fn execute_with_client(
    state: ServerState,
    recorded: Option<&ServerLock>,
    has_server_file: bool,
    grace_period: &str,
    command: Vec<String>,
    client_pid: i32,
    metadata: Option<String>,
    initiator_pid: i32,
    now: i64,
) -> (r: Result<LaunchPlan, Error>)
    requires
        !(state is Stopped) ==> (recorded matches Some(rec)),
    ensures
        launch_post(
            state,
            match recorded {
                Option::Some(rec) => Some(*rec),
                Option::None => None,
            },
            has_server_file,
            grace_period@,
            command@,
            Some((client_pid, metadata)),
            initiator_pid,
            now,
            r,
        ),
{
    execute_internal(
        state,
        recorded,
        has_server_file,
        grace_period,
        command,
        Some((client_pid, metadata)),
        initiator_pid,
        now,
    )
}

/// Install the real PIDs after the second fork: the watcher rewrites the
/// record with the server child's PID and its own.
pub fn install_watcher_pids(lock: &mut ServerLock, server_pid: i32, watcher_pid: i32)
    ensures
        final(lock).pid == server_pid,
        final(lock).watcher_pid == Some(watcher_pid),
        final(lock).command@ == old(lock).command@,
        final(lock).grace_period == old(lock).grace_period,
        final(lock).started_at == old(lock).started_at,
{
    lock.pid = server_pid;
    lock.watcher_pid = Some(watcher_pid);
}

/// Position of the first `=` in an override, looking from `i` on.
pub open spec fn spec_eq_index(s: Seq<char>, i: int) -> Option<int>
    decreases s.len() - i,
{
    if i < 0 || i >= s.len() {
        None
    } else if s[i] == '=' {
        Some(i)
    } else {
        spec_eq_index(s, i + 1)
    }
}

/// The key and value of a `KEY=VALUE` override, split at the first `=`;
/// `None` when no `=` occurs.
pub open spec fn spec_env_split(s: Seq<char>) -> Option<(Seq<char>, Seq<char>)> {
    match spec_eq_index(s, 0) {
        Option::Some(i) => Some((s.subrange(0, i), s.subrange(i + 1, s.len() as int))),
        Option::None => None,
    }
}

/// The rejection message for an override without `KEY=VALUE` shape.
pub open spec fn spec_env_error_detail(entry: Seq<char>) -> Seq<char> {
    "Invalid environment variable format: '"@ + entry + "'. Expected KEY=VALUE"@
}

fn split_env_var(entry: &str) -> (r: Result<(String, String), Error>)
    ensures
        (r is Ok) <==> (spec_env_split(entry@) is Some),
        r matches Ok(pair) ==> (spec_env_split(entry@) matches Some(p) && pair.0@ == p.0
            && pair.1@ == p.1),
        r matches Err(e) ==> (e matches Error::InvalidArgv { detail } && detail@
            == spec_env_error_detail(entry@)),
{
    let n = entry.unicode_len();
    let mut i: usize = 0;
    while i < n
        invariant
            i <= n,
            n == entry@.len(),
            spec_eq_index(entry@, 0) == spec_eq_index(entry@, i as int),
        decreases n - i,
    {
        if entry.get_char(i) == '=' {
            let key = entry.substring_char(0, i).to_owned();
            let value = entry.substring_char(i + 1, n).to_owned();
            return Ok((key, value));
        }
        i = i + 1;
    }
    let mut detail = "Invalid environment variable format: '".to_owned();
    detail.append(entry);
    detail.append("'. Expected KEY=VALUE");
    Err(Error::InvalidArgv { detail })
}

/// Split each `KEY=VALUE` override at its first `=`, keeping order; fail on
/// the first override without one.
pub fn parse_env_vars(env_vars: &Vec<String>) -> (r: Result<Vec<(String, String)>, Error>)
    ensures
        (r is Ok) <==> (forall|k: int|
            0 <= k < env_vars@.len() ==> spec_env_split(#[trigger] env_vars@[k]@) is Some),
        r matches Ok(pairs) ==> {
            &&& pairs@.len() == env_vars@.len()
            &&& forall|k: int|
                0 <= k < env_vars@.len() ==> (spec_env_split(#[trigger] env_vars@[k]@) matches Some(
                    p,
                ) && pairs@[k].0@ == p.0 && pairs@[k].1@ == p.1)
        },
        r matches Err(e) ==> (exists|k: int|
            {
                &&& 0 <= k < env_vars@.len()
                &&& spec_env_split(#[trigger] env_vars@[k]@) is None
                &&& (forall|j: int| 0 <= j < k ==> spec_env_split(#[trigger] env_vars@[j]@) is Some)
                &&& (e matches Error::InvalidArgv { detail } && detail@ == spec_env_error_detail(
                    env_vars@[k]@,
                ))
            }),
{
    let mut pairs: Vec<(String, String)> = Vec::new();
    let mut i: usize = 0;
    while i < env_vars.len()
        invariant
            i <= env_vars@.len(),
            pairs@.len() == i,
            forall|k: int|
                0 <= k < i ==> (spec_env_split(#[trigger] env_vars@[k]@) matches Some(p)
                    && pairs@[k].0@ == p.0 && pairs@[k].1@ == p.1),
        decreases env_vars@.len() - i,
    {
        match split_env_var(env_vars[i].as_str()) {
            Ok(pair) => {
                pairs.push(pair);
            },
            Err(e) => {
                return Err(e);
            },
        }
        i = i + 1;
    }
    Ok(pairs)
}

/// Whether the record shows the watcher's update: a watcher PID installed
/// and a server PID that is no longer the initiator's placeholder.
pub fn launch_complete(lock: &ServerLock, initiator_pid: i32) -> (r: bool)
    ensures
        r == (lock.watcher_pid is Some && lock.pid != initiator_pid),
{
    lock.watcher_pid.is_some() && lock.pid != initiator_pid
}

/// What the initiator's handshake poll does next.
#[derive(Clone, Copy, Debug, PartialEq, Eq, Structural)]
pub enum PollVerdict {
    /// The watcher's update is visible: the launch succeeded.
    Ready,
    /// Keep polling.
    Wait,
    /// The window passed without an update: remove both records and fail
    /// with a start timeout.
    TimedOut,
}

/// One step of the initiator's poll over the server record.  `read_ok` and
/// `complete` describe the latest read; the verdict is checked before the
/// elapsed time, as a completed launch must win over a late clock.
pub fn poll_launch(read_ok: bool, complete: bool, elapsed_ms: u64, timeout_ms: u64) -> (r:
    PollVerdict)
    ensures
        read_ok && complete ==> r == PollVerdict::Ready,
        !(read_ok && complete) && elapsed_ms > timeout_ms ==> r == PollVerdict::TimedOut,
        !(read_ok && complete) && elapsed_ms <= timeout_ms ==> r == PollVerdict::Wait,
{
    if read_ok && complete {
        PollVerdict::Ready
    } else if elapsed_ms > timeout_ms {
        PollVerdict::TimedOut
    } else {
        PollVerdict::Wait
    }
}

/// Single instance: a launch attempt against an observation that shows a
/// live server (Active or Grace) is refused with the recorded PID; only an
/// attempt that observed Stopped can produce a plan.  With the plan's file
/// writes done under the file's advisory lock, concurrent launchers that
/// observe the same live server all fail here.
pub proof fn lemma_single_instance(
    state: ServerState,
    recorded: Option<ServerLock>,
    has_server_file: bool,
    grace_period: Seq<char>,
    command: Seq<String>,
    initial_client: Option<(i32, Option<String>)>,
    initiator_pid: i32,
    now: i64,
    r: Result<LaunchPlan, Error>,
)
    requires
        launch_post(
            state,
            recorded,
            has_server_file,
            grace_period,
            command,
            initial_client,
            initiator_pid,
            now,
            r,
        ),
        !(state is Stopped),
        spec_valid_grace(grace_period),
    ensures
        r matches Err(e) ==> e matches Error::AlreadyRunning { pid, state: s } && (
        recorded matches Some(rec) && pid == rec.pid),
        r is Err,
{
}

} // verus!
