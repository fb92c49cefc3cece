[package]
name = "stream_orchestrator"
version = "0.1.0"
edition = "2021"
publish = false

[dependencies]
axum = "*"
gstreamer = "*"
gstreamer-app = "*"
gst-plugin-webrtc-signalling = "*"
kstring = "=2.0.0"
serde = { version = "1", features = ["derive"] }
tokio = { version = "1", features = ["macros", "rt-multi-thread", "net", "sync"] }
tower-http = { version = "*", features = ["fs", "cors"] }
