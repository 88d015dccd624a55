[package]
name = "imrefs"
version = "0.1.0"
edition = "2021"
publish = false

[dependencies]
futures = "0.3"
nix = { version = "0.26", features = ["sched"] }
signal-hook = "0.3"
signal-hook-tokio = { version = "0.3", features = ["futures-v0_3"] }
tokio = { version = "1", features = ["rt-multi-thread", "net", "io-util", "macros"] }
