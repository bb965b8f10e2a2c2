[package]
name = "ffpipeline"
version = "0.1.0"
edition = "2021"
publish = false

[dependencies]
simple-expand-tilde = "*"
time = { version = "0.3", features = ["macros"] }
serde = { version = "1", features = ["derive"] }
serde_json = "1"
tokio = { version = "1", features = ["process", "rt", "macros"] }
clap = { version = "4", features = ["derive"] }
env_logger = "0.11"
log = "0.4"
libloading = "0.8"
thiserror = "2"
