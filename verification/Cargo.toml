[package]
name = "encoding_vfs_core"
version = "0.1.0"
edition = "2021"
publish = false

[dependencies]
encoding_rs = "0.8"
globset = "0.4"
dashmap = "*"
serde = { version = "1", features = ["derive"] }
serde_json = "1"
toml = "*"
thiserror = "*"
dirs = "*"
tracing = "0.1"
tracing-subscriber = { version = "0.3", features = ["env-filter"] }
clap = { version = "4", features = ["derive"] }
windows = { version = "*", features = ["Win32_Foundation", "Win32_System_Console"] }
winfsp = "*"
