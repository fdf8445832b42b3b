[package]
name = "v8_runner"
version = "0.1.0"
edition = "2021"
publish = false

[dependencies]
sha2 = "0.10"
redb = "2"
chrono = "0.4"
serde = { version = "1", features = ["derive"] }
serde_json = "1"
clap = { version = "4", features = ["derive"] }
thiserror = "2"
tracing = "0.1"

[dev-dependencies]
tempfile = "3"
