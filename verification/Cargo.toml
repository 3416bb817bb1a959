[package]
name = "codex-longwatch"
version = "0.1.0"
edition = "2021"
publish = false

[dependencies]
anyhow = "1"
arboard = { version = "3", default-features = false }
async-io = "2"
async-trait = "0.1"
atspi = { version = "*", features = ["connection", "proxies"] }
chrono = { version = "=0.4.45", features = ["serde"] }
directories = "6"
enigo = { version = "*", default-features = false, features = ["x11rb"] }
notify = "8"
notify-rust = "4"
rand = "0.9"
rand_chacha = "0.9"
raw-window-handle = "0.6"
serde = { version = "1", features = ["derive"] }
serde_json = "=1.0.154"
sha2 = "=0.10.9"
single-instance = "0.3"
tempfile = "3"
thiserror = "2"
tokio = { version = "1", features = ["full"] }
tracing = "0.1"
tracing-appender = "0.2"
tracing-subscriber = { version = "0.3", features = ["env-filter"] }
uuid = { version = "=1.29.0", features = ["v4"] }
which = "8"
