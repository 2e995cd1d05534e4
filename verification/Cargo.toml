[package]
name = "more_auto_shoutouts"
version = "0.1.0"
edition = "2021"
publish = false

[dependencies]
chrono = "0.4"
rand = "0.8"
log = "0.4"
once_cell = "1"
serde = { version = "1", features = ["derive"] }
toml = "0.8"
snafu = "0.8"
tokio = { version = "1", features = ["rt-multi-thread", "sync", "time", "signal", "macros"] }
futures = "0.3"
async-trait = "0.1"
winapi = { version = "0.3", features = ["minwindef", "winnt"] }
minhook-sys = "0.1"
