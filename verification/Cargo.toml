[package]
name = "eks"
version = "0.1.0"
edition = "2021"
publish = false

[dependencies]
aes-gcm = "0.10"
chrono = { version = "0.4", default-features = false, features = ["clock", "std", "serde"] }
parking_lot = "0.12"
postcard = { version = "1", features = ["use-std"] }
rand = "0.9"
secrecy = "0.10"
serde = { version = "1", features = ["derive"] }
sha2 = "0.10"
tokio = { version = "1", features = ["fs", "io-util", "rt"] }
tracing = "0.1"
uuid = { version = "1", features = ["v4", "v5", "serde"] }
