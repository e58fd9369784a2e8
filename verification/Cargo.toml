[package]
name = "kanban_io"
version = "0.1.0"
edition = "2021"
publish = false

[dependencies]
aes-gcm = "0.10"
base64 = "0.21"
chrono = "0.4"
crossterm = "0.27"
eyre = "0.6"
home = "0.5"
linked-hash-map = "0.5"
log = "0.4"
ratatui = "0.26"
regex = "1"
reqwest = { version = "0.11", default-features = false, features = ["json", "rustls-tls"] }
serde = { version = "1", features = ["derive"] }
serde_json = "1"
tokio = { version = "1", features = ["rt", "rt-multi-thread", "sync", "time", "macros"] }
