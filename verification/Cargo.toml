[package]
name = "lofi_turtle"
version = "0.1.0"
edition = "2021"
publish = false

[dependencies]
async-trait = "0.1"
chrono = { version = "0.4", features = ["serde"] }
clap = { version = "4", features = ["derive"] }
env_logger = "0.11"
futures = "0.3"
image = { version = "0.25", default-features = false, features = ["png", "jpeg"] }
lofty = "0.22"
log = "0.4"
md5 = "0.7"
rand = "0.9"
ratatui = "0.29"
rodio = "0.21"
rusqlite = { version = "0.32", features = ["bundled"] }
serde = { version = "1", features = ["derive"] }
serde_json = "1"
thiserror = "1"
tokio = { version = "1", features = ["rt-multi-thread", "macros", "sync", "time"] }
toml = "0.8"
tui-textarea = "0.7"
uuid = { version = "1", features = ["v4"] }
