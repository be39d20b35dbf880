[package]
name = "signalr_communication"
version = "0.1.0"
edition = "2021"
publish = false

[dependencies]
base64 = "0.22"
ehttp = { version = "*", default-features = false }
futures = "0.3"
http = "1"
log = "0.4"
reqwest = { version = "0.12", default-features = false, features = ["native-tls"] }
serde = { version = "1", features = ["derive"] }
tokio = { version = "1", features = ["net", "sync", "rt", "time"] }
tokio-native-tls = "0.3"
tokio-websockets = { version = "*", features = ["client", "native-tls", "fastrand", "sha1_smol"] }
