[package]
name = "active_call"
version = "0.1.0"
edition = "2021"
publish = false

[dependencies]
audio-codec = "*"
hound = "*"
rmp3 = "*"
regex = "*"
serde = { version = "*", features = ["derive"] }
serde_json = "*"
tokio = { version = "*", features = ["full"] }
tokio-util = "*"
tokio-stream = { version = "*", features = ["time"] }
futures = "*"
anyhow = "*"
async-trait = "*"
bytes = "*"
reqwest = "*"
url = "*"
tempfile = "*"
rsip = "*"
rsipstack = "*"
msedge-tts = "*"
ort = "=2.0.0-rc.13"
ndarray = "*"
tracing = "*"
