[package]
name = "dictation"
version = "0.1.0"
edition = "2021"
publish = false

[dependencies]
regex = "=1.13.1"
uuid = { version = "=1.29.0", features = ["v4"] }
hound = "=3.5.1"
serde = { version = "=1.0.229", features = ["derive"] }
serde_json = "=1.0.154"
anyhow = "=1.0.104"
log = "=0.4.34"
once_cell = "=1.21.4"
chrono = "=0.4.45"
async-trait = "=0.1.92"
futures-util = "=0.3.34"
tokio = { version = "=1.54.1", features = ["rt", "rt-multi-thread", "time"] }
reqwest = { version = "=0.12.28", default-features = false, features = ["json", "multipart", "stream", "rustls-tls"] }
rusqlite = { version = "=0.31.0", features = ["bundled"] }
cpal = "0.15"
enigo = "*"
