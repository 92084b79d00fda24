[package]
name = "vde-worktree"
version = "0.1.0"
edition = "2021"
publish = false

[dependencies]
serde = { version = "1", features = ["derive"] }
serde_json = "1"
time = { version = "0.3", features = ["parsing"] }
nix = { version = "*", features = ["signal", "fs", "dir", "hostname", "process"] }
rustix = { version = "*", features = ["fs"] }
wait-timeout = "*"
clap_complete = "*"
tempfile = "*"
