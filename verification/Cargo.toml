[package]
name = "agent_bench"
version = "0.1.0"
edition = "2021"
publish = false

[dependencies]
async-trait = "*"
chrono = "0.4"
clap = { version = "4", features = ["derive"] }
env_logger = "*"
git2 = { version = "*", default-features = false }
log = "0.4"
serde = { version = "1", features = ["derive"] }
serde_json = "1"
serde_yaml = "0.9"
thiserror = "*"
tokio = { version = "1", features = ["full"] }
