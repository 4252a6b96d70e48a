[package]
name = "frakt"
version = "0.1.0"
edition = "2021"
publish = false

[dependencies]
cookie_store = "0.21"
url = "2"
http = "1"
urlencoding = "2"
base64 = "0.22"
rand = "0.8"
serde = "1"
serde_json = "1"
thiserror = "2"
tokio = { version = "1", features = ["full"] }
tokio-tungstenite = "0.26"
futures-util = "0.3"
bytes = "1"
tracing = "0.1"
once_cell = "1"
arc-swap = "1"
libc = "0.2"
reqwest = { version = "0.12", default-features = false, features = ["cookies", "json", "multipart", "stream", "socks", "rustls-tls"] }
