[package]
name = "voice_sessions"
version = "0.1.0"
edition = "2021"
publish = false

[dependencies]
actix = "=0.13.5"
actix-files = "=0.6.10"
actix-web = { version = "=4.18.1", default-features = false, features = ["macros", "compress-gzip"] }
base64 = "=0.13.1"
chrono = "=0.4.45"
dashmap = "=5.5.3"
env_logger = "=0.9.3"
futures = "=0.3.34"
hmac = "=0.12.1"
hyper = { version = "=0.14.32", features = ["client", "http2"] }
hyper-multipart-rfc7578 = "=0.8.0"
hyper-rustls = { version = "=0.23.2", features = ["http2"] }
jsonwebtoken = "=8.3.0"
log = "=0.4.34"
serde = { version = "=1.0.229", features = ["derive"] }
serde_urlencoded = "=0.7.1"
sha2 = "=0.10.9"
url = { version = "=2.5.8", features = ["serde"] }
uuid = { version = "=0.8.2", features = ["v4", "serde"] }
vkclient = "=4.0.4"
webrtc = "=0.6.0"
