[package]
name = "exec_with_local_desktop"
version = "0.1.0"
edition = "2021"
publish = false

[dependencies]
which = "*"
clap = { version = "*", features = ["derive"] }
tokio = { version = "*", features = ["full"] }
rcgen = "*"
time = "*"
serde = { version = "*", features = ["derive"] }
serde_json = "*"
thiserror = "*"
tracing = "*"
tracing-subscriber = "*"
bon = "*"
