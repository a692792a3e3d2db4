[package]
name = "ripit"
version = "0.1.0"
edition = "2021"
publish = false

[dependencies]
csv = "1"
regex = "1"
serde = { version = "1", features = ["derive"] }
serde_yaml = "0.9"
clap = { version = "4", features = ["derive", "env"] }
tokio = { version = "1", features = ["full"] }
async-trait = "0.1"
async-stream = "0.3"
futures = "0.3"
log = "0.4"
env_logger = "0.11"
indicatif = "0.17"
indicatif-log-bridge = "0.2"
dialoguer = "0.11"
exitcode = "1"
which = "*"
wild = "2"
chrono = "0.4"
speedate = "*"
itertools = "*"
winapi = { version = "0.3", features = ["fileapi", "minwindef"] }
