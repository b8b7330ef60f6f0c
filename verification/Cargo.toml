[package]
name = "nsbox"
version = "0.1.0"
edition = "2021"
publish = false

[dependencies]
nix = { version = "*", features = ["fs", "mount", "process", "sched", "user"] }
