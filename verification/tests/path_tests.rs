use sharedserver::decimal::{i64_to_string, u64_to_string};
use sharedserver::paths::{
    clients_lockfile_path, invocation_log_path, lockfile_dir, server_lockfile_path,
};
use sharedserver::{Error, ServerState};

#[test]
fn test_lockfile_paths() {
    assert_eq!(
        server_lockfile_path("/tmp/sharedserver", "foo"),
        "/tmp/sharedserver/foo.server.json"
    );
    assert_eq!(
        clients_lockfile_path("/tmp/sharedserver", "foo"),
        "/tmp/sharedserver/foo.clients.json"
    );
    assert_eq!(
        invocation_log_path("/run/user/1000/sharedserver", "bar"),
        "/run/user/1000/sharedserver/bar.invocations.log"
    );
}

#[test]
fn test_lockfile_dir_precedence() {
    assert_eq!(
        lockfile_dir(Some("/custom".to_string()), Some("/run/user/1".to_string())),
        "/custom"
    );
    assert_eq!(
        lockfile_dir(None, Some("/run/user/1".to_string())),
        "/run/user/1/sharedserver"
    );
    assert_eq!(lockfile_dir(None, None), "/tmp/sharedserver");
}

#[test]
fn test_decimal_rendering() {
    assert_eq!(u64_to_string(0), "0");
    assert_eq!(u64_to_string(7), "7");
    assert_eq!(u64_to_string(300), "300");
    assert_eq!(u64_to_string(u64::MAX), "18446744073709551615");
    assert_eq!(i64_to_string(-45), "-45");
    assert_eq!(i64_to_string(i64::MIN), "-9223372036854775808");
    assert_eq!(i64_to_string(12345), "12345");
}

#[test]
fn test_error_messages() {
    assert_eq!(Error::NotRunning.message(), "Server is not running");
    assert_eq!(
        Error::AlreadyRunning { pid: 42, state: ServerState::Active }.message(),
        "Server is already running (PID: 42, state: active)"
    );
    assert_eq!(
        Error::NotAttached { pid: 7, name: "foo".to_string() }.message(),
        "Client 7 was not attached to server 'foo'"
    );
    assert_eq!(
        Error::AlreadyDetached.message(),
        "Server is in grace period (refcount already 0)"
    );
    assert!(Error::StopTimeout.message().contains("--force"));
    assert_eq!(Error::KillFailed.message(), "Failed to kill server process");
    assert_eq!(
        Error::LockUnavailable { path: "/tmp/x".to_string() }.message(),
        "Failed to acquire lock on: /tmp/x"
    );
    assert_eq!(
        Error::CorruptLockfile { path: "/tmp/x".to_string() }.message(),
        "Corrupt or empty lockfile: /tmp/x"
    );
    assert_eq!(
        Error::Io { path: "/tmp/x".to_string(), detail: "Failed to open".to_string() }.message(),
        "Failed to open: /tmp/x"
    );
    assert_eq!(Error::StartTimeout.message(), "Timeout waiting for server to start");
    assert_eq!(Error::InvalidDuration.message(), "Invalid duration");
}
