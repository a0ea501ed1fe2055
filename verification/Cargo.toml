[package]
name = "sharedserver"
version = "0.1.0"
edition = "2021"
publish = false

[dependencies]
anyhow = "*"
chrono = { version = "*", features = ["serde"] }
clap = { version = "*", features = ["derive"] }
clap_complete = "*"
colored = "*"
libc = "*"
nix = { version = "*", features = ["fs", "signal", "process"] }
serde = { version = "*", features = ["derive"] }
serde_json = "*"
