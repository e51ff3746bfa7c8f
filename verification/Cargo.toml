[package]
name = "vault_supervisor"
version = "0.1.0"
edition = "2021"
publish = false

[dependencies]
sysinfo = "0.30"
tokio = { version = "1", features = ["process", "time", "sync", "rt"] }
diesel = { version = "2", features = ["sqlite"] }
directories = "5"
serde = { version = "1", features = ["derive"] }
thiserror = "1"
tracing = "0.1"
