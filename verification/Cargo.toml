[package]
name = "nekoland"
version = "0.1.0"
edition = "2021"
publish = false

[dependencies]
serde = { version = "1", features = ["derive"] }
serde_json = "1"
gtk4 = "*"
gtk4-layer-shell = "*"
ksni = "0.2"
tokio = { version = "1", features = ["rt-multi-thread", "time"] }
tokio-tungstenite = { version = "*", features = ["rustls-tls-webpki-roots"] }
futures-util = { version = "0.3", features = ["sink"] }
