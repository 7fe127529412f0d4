[package]
name = "crater"
version = "0.1.0"
edition = "2021"
publish = false

[dependencies]
libc = "*"
nix = { version = "*", features = ["mount", "sched", "fs", "process", "signal", "hostname"] }
oci-spec = "*"
serde = { version = "*", features = ["derive"] }
serde_json = "*"
