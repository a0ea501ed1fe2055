use sharedserver::decref;
use sharedserver::doctor::{check_server, server_name_of_file, Issue};
use sharedserver::incref;
use sharedserver::kill;
use sharedserver::start;
use sharedserver::stop;
use sharedserver::unuse;
use sharedserver::use_cmd::{self, UseAction};
use sharedserver::watcher::{
    collect_dead_clients, sweep_clients, watcher_startup, watcher_step, WatcherAction,
    WatcherStartup,
};
use sharedserver::{get_server_state, ClientInfo, ClientsLock, Error, ServerLock, ServerState};

fn attached(record: &ClientsLock, pid: i32) -> bool {
    record.clients.iter().any(|e| e.pid == pid)
}

#[test]
fn test_state_oracle_derivation() {
    // No server file: Stopped, whatever else holds.
    assert_eq!(get_server_state(false, false, false), ServerState::Stopped);
    assert_eq!(get_server_state(false, true, true), ServerState::Stopped);
    // Server file with a dead PID: Stopped even though files linger.
    assert_eq!(get_server_state(true, false, true), ServerState::Stopped);
    assert_eq!(get_server_state(true, false, false), ServerState::Stopped);
    // Alive: the clients file decides Active against Grace.
    assert_eq!(get_server_state(true, true, true), ServerState::Active);
    assert_eq!(get_server_state(true, true, false), ServerState::Grace);
}

#[test]
fn test_check_exit_codes() {
    assert_eq!(ServerState::Active.exit_code(), 0);
    assert_eq!(ServerState::Grace.exit_code(), 1);
    assert_eq!(ServerState::Stopped.exit_code(), 2);
    assert_eq!(ServerState::Active.as_str(), "active");
    assert_eq!(ServerState::Grace.as_str(), "grace");
    assert_eq!(ServerState::Stopped.as_str(), "stopped");
}

#[test]
fn test_incref_recreates_record_in_grace() {
    // S4 core: an attach during Grace recreates the clients record.
    let r = incref::execute(
        ServerState::Grace,
        None,
        777,
        ClientInfo::new(50, None),
    )
    .unwrap();
    assert_eq!(r.new_refcount, 1);
    assert_eq!(r.record.refcount, 1);
    assert_eq!(r.record.clients.len(), 1);
    assert_eq!(r.record.clients[0].pid, 777);
}

#[test]
fn test_incref_stopped_fails() {
    let r = incref::execute(ServerState::Stopped, None, 777, ClientInfo::new(0, None));
    assert!(matches!(r, Err(Error::NotRunning)));
}

#[test]
fn test_incref_reattach_repairs_refcount() {
    // Attaching an already-attached client overwrites its entry; the
    // written record stays consistent: refcount equals the entry count.
    let first = incref::execute(ServerState::Grace, None, 10, ClientInfo::new(5, None)).unwrap();
    let again = incref::execute(
        ServerState::Active,
        Some(first.record),
        10,
        ClientInfo::new(9, Some("renewed".to_string())),
    )
    .unwrap();
    assert_eq!(again.new_refcount, 1);
    assert_eq!(again.record.refcount, 1);
    assert_eq!(again.record.clients.len(), 1);
    assert_eq!(again.record.clients[0].pid, 10);
    assert_eq!(again.record.clients[0].info.attached_at, 9);
    assert_eq!(
        again.record.clients[0].info.metadata,
        Some("renewed".to_string())
    );
}

#[test]
fn test_double_use_increments_then_decref() {
    // S3 core: a second attach makes refcount 2; detaching it leaves 1.
    let first = incref::execute(
        ServerState::Grace,
        None,
        1000,
        ClientInfo::new(10, None),
    )
    .unwrap();
    let second = incref::execute(
        ServerState::Active,
        Some(first.record),
        4242,
        ClientInfo::new(20, Some("editor".to_string())),
    )
    .unwrap();
    assert_eq!(second.new_refcount, 2);
    assert_eq!(second.record.clients.len(), 2);
    assert!(attached(&second.record, 1000));
    assert!(attached(&second.record, 4242));

    let d = decref::execute("baz", ServerState::Active, Some(second.record), 4242).unwrap();
    assert_eq!(d.new_refcount, 1);
    assert!(!d.delete_file);
    assert!(!d.repaired);
    assert!(attached(&d.record, 1000));
    assert!(!attached(&d.record, 4242));
}

#[test]
fn test_decref_last_client_deletes_file() {
    let only = incref::execute(ServerState::Grace, None, 12345, ClientInfo::new(0, None)).unwrap();
    let d = decref::execute("foo", ServerState::Active, Some(only.record), 12345).unwrap();
    assert_eq!(d.new_refcount, 0);
    assert!(d.delete_file);
}

#[test]
fn test_decref_errors() {
    assert!(matches!(
        decref::execute("srv", ServerState::Stopped, None, 1),
        Err(Error::NotRunning)
    ));
    assert!(matches!(
        decref::execute("srv", ServerState::Grace, None, 1),
        Err(Error::AlreadyDetached)
    ));
    let only = incref::execute(ServerState::Grace, None, 7, ClientInfo::new(0, None)).unwrap();
    let r = decref::execute("srv", ServerState::Active, Some(only.record), 8);
    match r {
        Err(Error::NotAttached { pid, name }) => {
            assert_eq!(pid, 8);
            assert_eq!(name, "srv");
        },
        other => panic!("expected NotAttached, got {:?}", other.is_ok()),
    }
}

#[test]
fn test_decref_repairs_refcount_drift() {
    // A record whose refcount drifted above the entry count is repaired.
    let mut record = ClientsLock::new();
    record.refcount = 5;
    record.insert_client(1, ClientInfo::new(0, None));
    record.insert_client(2, ClientInfo::new(0, None));
    let d = decref::execute("drifty", ServerState::Active, Some(record), 2).unwrap();
    assert_eq!(d.new_refcount, 1);
    assert!(d.repaired);
    assert!(!d.delete_file);
}

#[test]
fn test_use_decisions() {
    let cmd = vec!["sleep".to_string(), "600".to_string()];
    let none: Vec<String> = vec![];
    assert_eq!(
        use_cmd::execute(ServerState::Stopped, &cmd).unwrap(),
        UseAction::StartServer
    );
    assert_eq!(
        use_cmd::execute(ServerState::Active, &none).unwrap(),
        UseAction::Attach
    );
    assert_eq!(
        use_cmd::execute(ServerState::Grace, &none).unwrap(),
        UseAction::Rescue
    );
    assert!(matches!(
        use_cmd::execute(ServerState::Stopped, &none),
        Err(Error::InvalidArgv { .. })
    ));
}

#[test]
fn test_unuse_decisions() {
    assert!(matches!(unuse::execute(ServerState::Stopped), Err(Error::NotRunning)));
    assert_eq!(unuse::execute(ServerState::Grace).unwrap(), true);
    assert_eq!(unuse::execute(ServerState::Active).unwrap(), false);
}

#[test]
fn test_launch_plan_with_client() {
    // `use` on a stopped server: both records are planned, refcount 1.
    let plan = start::execute_with_client(
        ServerState::Stopped,
        None,
        false,
        "3s",
        vec!["sleep".to_string(), "600".to_string()],
        12345,
        None,
        999,
        1700000000,
    )
    .unwrap();
    assert!(!plan.clean_stale);
    assert_eq!(plan.grace_secs, 3);
    assert_eq!(plan.server_lock.pid, 999);
    assert_eq!(plan.server_lock.watcher_pid, None);
    assert_eq!(plan.server_lock.grace_period, "3s");
    assert_eq!(plan.server_lock.started_at, 1700000000);
    assert_eq!(
        plan.server_lock.command,
        vec!["sleep".to_string(), "600".to_string()]
    );
    let clients = plan.clients_lock.unwrap();
    assert_eq!(clients.refcount, 1);
    assert_eq!(clients.clients.len(), 1);
    assert_eq!(clients.clients[0].pid, 12345);
}

#[test]
fn test_launch_plan_bare_start_has_no_clients_record() {
    let plan = start::execute(
        ServerState::Stopped,
        None,
        false,
        "5m",
        vec!["srv".to_string()],
        1,
        0,
    )
    .unwrap();
    assert!(plan.clients_lock.is_none());
    assert_eq!(plan.grace_secs, 300);
}

#[test]
fn test_launch_conflicts_and_stale_cleanup() {
    // S5 core: a recorded live server rejects the launch with its PID;
    // a stale server file (dead PID, hence Stopped) is cleaned and the
    // launch proceeds.
    let live = ServerLock {
        pid: 1,
        command: vec!["sleep".to_string()],
        grace_period: "5m".to_string(),
        watcher_pid: Some(2),
        started_at: 0,
    };
    let r = start::execute(
        ServerState::Active,
        Some(&live),
        true,
        "5m",
        vec!["sleep".to_string()],
        50,
        0,
    );
    match r {
        Err(Error::AlreadyRunning { pid, state }) => {
            assert_eq!(pid, 1);
            assert_eq!(state, ServerState::Active);
        },
        _ => panic!("expected AlreadyRunning"),
    }

    let plan = start::execute(
        ServerState::Stopped,
        None,
        true,
        "5m",
        vec!["sleep".to_string(), "600".to_string()],
        50,
        0,
    )
    .unwrap();
    assert!(plan.clean_stale);
}

#[test]
fn test_launch_rejects_bad_input() {
    assert!(matches!(
        start::execute(ServerState::Stopped, None, false, "0m", vec!["x".to_string()], 1, 0),
        Err(Error::InvalidDuration)
    ));
    assert!(matches!(
        start::execute(ServerState::Stopped, None, false, "5m", vec![], 1, 0),
        Err(Error::InvalidArgv { .. })
    ));
}

#[test]
fn test_launch_handshake() {
    let mut lock = ServerLock {
        pid: 999,
        command: vec!["srv".to_string()],
        grace_period: "5m".to_string(),
        watcher_pid: None,
        started_at: 0,
    };
    assert!(!start::launch_complete(&lock, 999));
    start::install_watcher_pids(&mut lock, 1234, 1233);
    assert_eq!(lock.pid, 1234);
    assert_eq!(lock.watcher_pid, Some(1233));
    assert!(start::launch_complete(&lock, 999));
    // A poll that sees the update is Ready; a late one without it times out.
    assert_eq!(
        start::poll_launch(true, true, 100, 2000),
        start::PollVerdict::Ready
    );
    assert_eq!(
        start::poll_launch(true, false, 100, 2000),
        start::PollVerdict::Wait
    );
    assert_eq!(
        start::poll_launch(false, false, 2050, 2000),
        start::PollVerdict::TimedOut
    );
}

#[test]
fn test_watcher_steps() {
    // P4 core: a dead server means both files go, immediately.
    let step = watcher_step(false, true, Some(10), 20, 300);
    assert_eq!(step.action, WatcherAction::CleanupBothAndExit);
    // Clients present: any running timer is cancelled.
    let step = watcher_step(true, true, Some(10), 20, 300);
    assert_eq!(step.action, WatcherAction::Sleep);
    assert_eq!(step.grace_timer, None);
    // No clients: the timer starts now,
    let step = watcher_step(true, false, None, 40, 300);
    assert_eq!(step.action, WatcherAction::Sleep);
    assert_eq!(step.grace_timer, Some(40));
    // keeps running while the grace period lasts,
    let step = watcher_step(true, false, Some(40), 120, 300);
    assert_eq!(step.action, WatcherAction::Sleep);
    assert_eq!(step.grace_timer, Some(40));
    // and fires once it has elapsed.
    let step = watcher_step(true, false, Some(40), 340, 300);
    assert_eq!(step.action, WatcherAction::TerminateServerAndExit);
}

#[test]
fn test_watcher_startup_decisions() {
    assert_eq!(watcher_startup(false, true), WatcherStartup::AbortInvalidGrace);
    assert_eq!(watcher_startup(false, false), WatcherStartup::AbortInvalidGrace);
    assert_eq!(watcher_startup(true, false), WatcherStartup::CleanupBothAndAbort);
    assert_eq!(watcher_startup(true, true), WatcherStartup::Supervise);
}

#[test]
fn test_sweep_removes_dead_clients() {
    let mut record = ClientsLock::new();
    record.refcount = 3;
    record.insert_client(10, ClientInfo::new(0, None));
    record.insert_client(20, ClientInfo::new(0, None));
    record.insert_client(30, ClientInfo::new(0, None));
    let outcome = sweep_clients(record, &vec![20]);
    assert!(outcome.changed);
    assert!(!outcome.delete_file);
    assert!(outcome.has_clients);
    assert_eq!(outcome.record.refcount, 2);
    assert_eq!(outcome.record.clients.len(), 2);
    assert_eq!(outcome.record.clients[0].pid, 10);
    assert_eq!(outcome.record.clients[1].pid, 30);
}

#[test]
fn test_sweep_last_client_dead_deletes_file() {
    let mut record = ClientsLock::new();
    record.refcount = 1;
    record.insert_client(10, ClientInfo::new(0, None));
    let outcome = sweep_clients(record, &vec![10]);
    assert!(outcome.changed);
    assert!(outcome.delete_file);
    assert!(!outcome.has_clients);
    assert_eq!(outcome.record.clients.len(), 0);
}

#[test]
fn test_sweep_without_dead_clients_touches_nothing() {
    let mut record = ClientsLock::new();
    record.refcount = 2;
    record.insert_client(10, ClientInfo::new(0, None));
    record.insert_client(20, ClientInfo::new(0, None));
    let outcome = sweep_clients(record, &vec![]);
    assert!(!outcome.changed);
    assert!(!outcome.delete_file);
    assert!(outcome.has_clients);
    assert_eq!(outcome.record.refcount, 2);
}

#[test]
fn test_collect_dead_clients_probes_recorded_pids() {
    // PID 1 is always alive; a far-fetched PID is not.
    let mut record = ClientsLock::new();
    record.refcount = 2;
    record.insert_client(1, ClientInfo::new(0, None));
    record.insert_client(999999999, ClientInfo::new(0, None));
    let dead = collect_dead_clients(&record);
    assert_eq!(dead, vec![999999999]);
}

#[test]
fn test_stop_and_kill_gates() {
    assert!(matches!(
        stop::execute(ServerState::Stopped, None),
        Err(Error::NotRunning)
    ));
    let rec = ServerLock {
        pid: 321,
        command: vec!["srv".to_string()],
        grace_period: "5m".to_string(),
        watcher_pid: Some(322),
        started_at: 0,
    };
    assert_eq!(stop::execute(ServerState::Active, Some(&rec)).unwrap(), 321);

    assert_eq!(
        stop::after_graceful_wait(false, false).unwrap(),
        stop::StopFollowup::CleanupNow
    );
    assert_eq!(
        stop::after_graceful_wait(true, true).unwrap(),
        stop::StopFollowup::ForceKill
    );
    assert!(matches!(
        stop::after_graceful_wait(true, false),
        Err(Error::StopTimeout)
    ));
    assert!(stop::after_force_kill(false).is_ok());
    assert!(matches!(stop::after_force_kill(true), Err(Error::KillFailed)));

    assert!(matches!(
        kill::execute(ServerState::Stopped, None),
        Err(Error::NotRunning)
    ));
    let plan = kill::execute(ServerState::Grace, Some(&rec)).unwrap();
    assert_eq!(plan.server_pid, 321);
    assert_eq!(plan.watcher_pid, Some(322));
}

#[test]
fn test_doctor_stale_lockfiles() {
    // S6 core: a stopped server with lingering files has them removed.
    let d = check_server(ServerState::Stopped, true, false, None, false, false, None, &vec![]);
    assert_eq!(
        d.issues,
        vec![Issue::StaleLockfiles { server: true, clients: false }]
    );
    assert!(d.remove_server_lock);
    assert!(!d.remove_clients_lock);

    let clean = check_server(
        ServerState::Stopped,
        false,
        false,
        None,
        false,
        false,
        None,
        &vec![],
    );
    assert!(clean.issues.is_empty());
    assert!(!clean.remove_server_lock);
}

#[test]
fn test_doctor_healthy_server_has_no_issues() {
    let rec = ServerLock {
        pid: 100,
        command: vec!["srv".to_string()],
        grace_period: "30s".to_string(),
        watcher_pid: Some(101),
        started_at: 0,
    };
    let mut clients = ClientsLock::new();
    clients.refcount = 1;
    clients.insert_client(55, ClientInfo::new(0, None));
    let d = check_server(
        ServerState::Active,
        true,
        true,
        Some(&rec),
        true,
        true,
        Some(clients),
        &vec![],
    );
    assert!(d.issues.is_empty());
    assert!(!d.remove_server_lock);
    assert!(!d.remove_clients_lock);
    assert!(d.repaired_clients.is_none());
}

#[test]
fn test_doctor_findings() {
    let rec = ServerLock {
        pid: 100,
        command: vec!["srv".to_string()],
        grace_period: "30s".to_string(),
        watcher_pid: Some(101),
        started_at: 0,
    };
    // Dead server process: both files are removed.
    let d = check_server(
        ServerState::Active,
        true,
        true,
        Some(&rec),
        false,
        true,
        None,
        &vec![],
    );
    assert_eq!(
        d.issues,
        vec![
            Issue::DeadServerProcess { pid: 100 },
            Issue::ActiveWithoutClientsFile
        ]
    );
    assert!(d.remove_server_lock);
    assert!(d.remove_clients_lock);

    // Dead watcher is reported, never repaired; refcount drift and dead
    // clients are reported.
    let mut clients = ClientsLock::new();
    clients.refcount = 3;
    clients.insert_client(55, ClientInfo::new(0, None));
    let d = check_server(
        ServerState::Active,
        true,
        true,
        Some(&rec),
        true,
        false,
        Some(clients),
        &vec![55],
    );
    assert_eq!(
        d.issues,
        vec![
            Issue::DeadWatcher { pid: 101 },
            Issue::DeadClients { count: 1 },
            Issue::RefcountMismatch { refcount: 3, actual: 1 }
        ]
    );
    assert!(!d.remove_server_lock);
    let repaired = d.repaired_clients.expect("drifted refcount must be repaired");
    assert_eq!(repaired.refcount, 1);
    assert_eq!(repaired.clients.len(), 1);
    assert_eq!(repaired.clients[0].pid, 55);
}

#[test]
fn test_doctor_active_with_no_clients() {
    let rec = ServerLock {
        pid: 100,
        command: vec!["srv".to_string()],
        grace_period: "30s".to_string(),
        watcher_pid: Some(101),
        started_at: 0,
    };
    let empty = ClientsLock::new();
    let d = check_server(
        ServerState::Active,
        true,
        true,
        Some(&rec),
        true,
        true,
        Some(empty),
        &vec![],
    );
    assert_eq!(d.issues, vec![Issue::ActiveWithNoClients]);
}

#[test]
fn test_doctor_grace_with_clients() {
    let rec = ServerLock {
        pid: 100,
        command: vec!["srv".to_string()],
        grace_period: "30s".to_string(),
        watcher_pid: None,
        started_at: 0,
    };
    let mut clients = ClientsLock::new();
    clients.refcount = 1;
    clients.insert_client(55, ClientInfo::new(0, None));
    let d = check_server(
        ServerState::Grace,
        true,
        true,
        Some(&rec),
        true,
        true,
        Some(clients),
        &vec![],
    );
    assert_eq!(
        d.issues,
        vec![Issue::GraceWithClients { refcount: 1, count: 1 }]
    );
    assert!(d.repaired_clients.is_none());
}

#[test]
fn test_server_name_of_file() {
    assert_eq!(
        server_name_of_file("foo.server.json"),
        Some("foo".to_string())
    );
    assert_eq!(
        server_name_of_file("my-server.server.json"),
        Some("my-server".to_string())
    );
    assert_eq!(server_name_of_file("foo.clients.json"), None);
    assert_eq!(server_name_of_file("foo.server.jsonx"), None);
    assert_eq!(server_name_of_file("short"), None);
    assert_eq!(server_name_of_file(".server.json"), Some("".to_string()));
}
