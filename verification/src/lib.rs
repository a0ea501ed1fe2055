//! Core logic of a shared-server supervisor: a command-line tool that keeps a
//! long-running server process alive while at least one client is attached,
//! and tears it down after a grace period once the last client detaches.
//!
//! All coordination happens through two small on-disk records per server name
//! (a server record and a clients record) plus a watcher process.  This crate
//! holds the data model and every decision the tool makes: state derivation,
//! the attachment protocol, the launch plan, the watcher state machine, the
//! dead-client sweep, admin planning and duration parsing.  The thin shell
//! that performs file I/O, locking, forking and signalling consumes these
//! functions and hands them plain values.

pub mod decimal;
pub mod decref;
pub mod doctor;
pub mod duration;
pub mod error;
pub mod health;
pub mod incref;
pub mod kill;
pub mod output;
pub mod paths;
pub mod records;
pub mod start;
pub mod state;
pub mod stop;
pub mod unuse;
pub mod use_cmd;
pub mod watcher;

pub use duration::parse_duration;
pub use error::Error;
pub use health::is_process_alive;
pub use paths::{clients_lock_exists, server_lock_exists};
pub use records::{ClientEntry, ClientInfo, ClientsLock, ServerLock};
pub use state::{get_server_state, ServerState};
