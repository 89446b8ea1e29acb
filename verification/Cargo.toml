[package]
name = "mavlink-camera-manager"
version = "0.1.0"
edition = "2021"
publish = false

[dependencies]
anyhow = "1"
async-backtrace = "0.2"
futures = "0.3"
gstreamer = "0.23"
gstreamer-app = "0.23"
gstreamer-sdp = "0.23"
gstreamer-webrtc = "0.23"
mavlink = { version = "0.13", default-features = false, features = ["std", "udp", "common"] }
serde = { version = "1", features = ["derive"] }
serde_json = "1"
thirtyfour = { version = "=0.38.1", default-features = false }
tokio = { version = "1", features = ["full"] }
tokio-tungstenite = "=0.30.0"
tracing = "0.1"
url = "=2.5.8"
uuid = { version = "=1.29.0", features = ["v4", "v5", "serde"] }
webrtc-sdp = "=0.3.17"
zenoh = { version = "=1.10.2", default-features = false, features = ["transport_tcp"] }
