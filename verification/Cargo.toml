[package]
name = "echokit"
version = "0.1.0"
edition = "2021"
publish = false

[dependencies]
anyhow = "1"
bytes = "1"
futures-util = { version = "0.3", features = ["sink"] }
log = "0.4"
rmp-serde = "1"
serde = { version = "1", features = ["derive"] }
tokio = { version = "1", features = ["rt", "sync", "time", "macros", "net", "io-util", "io-std"] }
tokio-websockets = { version = "=0.13.3", features = ["client", "rand", "sha1_smol"] }
