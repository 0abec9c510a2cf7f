[package]
name = "apca"
version = "0.1.0"
edition = "2021"
publish = false

[dependencies]
chrono = "=0.4.45"
http = "=1.5.0"
http-body-util = "=0.1.5"
hyper = { version = "=1.12.0", features = ["client", "http1"] }
hyper-util = { version = "=0.1.21", features = ["client", "client-legacy", "http1", "tokio"] }
serde = { version = "=1.0.229", features = ["derive"] }
serde_json = "=1.0.151"
serde_urlencoded = "=0.7.1"
tokio = { version = "=1.53.2", features = ["rt", "rt-multi-thread", "net", "time", "io-util", "macros"] }
tokio-tungstenite = { version = "=0.30.0", features = ["rustls-tls-webpki-roots"] }
tracing = "=0.1.44"
tracing-futures = "=0.2.5"
url = "=2.5.8"
websocket-util = "=0.14.0"
