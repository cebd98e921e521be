[package]
name = "jocker"
version = "0.1.0"
edition = "2021"
publish = false

[dependencies]
clap = "2"
dirs = "5"
failure = "0.1"
flate2 = "1"
nix = { version = "0.29", features = ["fs", "hostname", "mount", "process", "sched", "signal"] }
serde = "1"
serde_derive = "1"
serde_json = "1"
tar = "0.4"
uuid = { version = "1", features = ["v4"] }
