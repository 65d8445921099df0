[package]
name = "container_init"
version = "0.1.0"
edition = "2021"
publish = false

[dependencies]
anyhow = "*"
aws-config = "*"
aws-sdk-secretsmanager = "*"
clap = { version = "*", features = ["derive"] }
log = "*"
serde = { version = "*", features = ["derive"] }
serde_yml = "*"
simple_logger = "*"
thiserror = "*"
tokio = { version = "*", features = ["macros", "rt", "fs", "io-util"] }
