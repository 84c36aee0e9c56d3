[package]
name = "rakuyomi_bridge"
version = "0.1.0"
edition = "2021"
publish = false

[dependencies]
anyhow = "1"
axum = "*"
clap = { version = "4", features = ["derive"] }
jni = "*"
libc = "0.2"
log = "0.4"
reqwest = { version = "*", default-features = false }
serde = { version = "1", features = ["derive"] }
serde_bytes = "0.11"
serde_json = "1"
tokio = { version = "1", features = ["net", "rt-multi-thread", "sync", "time"] }
