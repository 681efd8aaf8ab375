[package]
name = "xbase"
version = "0.1.0"
edition = "2021"
publish = false

[dependencies]
anyhow = "1"
async-trait = "0.1"
mlua = { version = "*", features = ["lua54", "vendored"] }
notify = "*"
process-stream = "*"
serde = { version = "1", features = ["derive"] }
serde_json = "1"
serde_repr = "0.1"
strum = { version = "*", features = ["derive"] }
tap = "1"
tokio = { version = "1", features = ["rt-multi-thread", "sync", "time", "macros"] }
tracing = "0.1"
wax = "0.5"
xcodeproj = "*"
