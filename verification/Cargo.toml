[package]
name = "bb_runner"
version = "0.1.0"
edition = "2021"
publish = false

[dependencies]
nix = { version = "0.29", features = ["feature", "fs", "hostname", "ioctl", "mman", "mount", "net", "process", "sched", "signal", "socket", "user"] }
prost = "0.13"
prost-types = "0.13"
rsjsonnet-front = "*"
rsjsonnet-lang = "*"
serde = { version = "1", features = ["derive"] }
serde_json = "1"
tokio = { version = "1", features = ["macros", "net", "rt", "signal", "sync", "time"] }
tokio-stream = { version = "0.1", features = ["net"] }
tokio-util = "0.7"
tonic = "0.12"
tonic-reflection = "0.12"
tracing = "0.1"
tracing-subscriber = { version = "0.3", features = ["env-filter"] }
