[package]
name = "syncthing_rs"
version = "0.1.0"
edition = "2021"
publish = false

[dependencies]
syn = { version = "=2.0.119", features = ["full"] }
proc-macro2 = "=1.0.107"
quote = "=1.0.47"
serde_derive_internals = "=0.29.1"
serde = { version = "=1.0.229", features = ["derive"] }
serde_json = "=1.0.154"
reqwest = { version = "=0.12.28", default-features = false, features = ["json"] }
tokio = { version = "=1.54.1", features = ["sync"] }
thiserror = "=2.0.21"
log = "=0.4.34"
chrono = { version = "=0.4.45", features = ["serde"] }
