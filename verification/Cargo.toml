[package]
name = "godot_livekit"
version = "0.1.0"
edition = "2021"
publish = false

[dependencies]
serde_json = "1"
tokio = { version = "1", features = ["rt", "rt-multi-thread", "sync", "macros"] }
futures-util = "0.3"
log = "0.4"
godot = "*"
livekit = "*"
jni = "0.21"
