[package]
name = "wine_cask"
version = "0.1.0"
edition = "2021"
publish = false

[dependencies]
byteorder = "1"
chrono = "0.4"
flate2 = "1"
futures-channel = "0.3"
futures-util = "0.3"
keyvalues-parser = "*"
log = "0.4"
reqwest = { version = "0.11", default-features = false, features = ["stream", "rustls-tls"] }
serde = { version = "1", features = ["derive"] }
serde_json = "1"
tar = "0.4"
tokio = { version = "1", features = ["full"] }
tokio-tungstenite = "0.20"
xz2 = "0.1"
