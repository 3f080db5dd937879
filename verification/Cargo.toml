[package]
name = "pipecat"
version = "0.1.0"
edition = "2021"
publish = false

[dependencies]
async-trait = "0.1"
base64 = "0.22"
bytes = "1"
cpal = "0.15"
futures = "0.3"
hound = "3"
image = { version = "0.25", default-features = false, features = ["jpeg"] }
reqwest = { version = "0.12", default-features = false, features = ["json", "stream"] }
serde = { version = "1", features = ["derive"] }
serde_json = "1"
thiserror = "2"
tokio = { version = "1", features = ["rt", "rt-multi-thread", "sync", "time", "macros", "net", "fs", "io-util"] }
tokio-tungstenite = { version = "0.26", default-features = false, features = ["connect", "handshake"] }
tracing = "0.1"
whisper-rs = "*"
