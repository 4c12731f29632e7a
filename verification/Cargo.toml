[package]
name = "meson"
version = "0.1.0"
edition = "2021"
publish = false

[dependencies]
sha2 = "=0.10.9"
hmac = "=0.12.1"
hex = "=0.4.3"
chrono = { version = "=0.4.45", default-features = false, features = ["clock", "std"] }
uuid = { version = "=1.29.0", features = ["v4"] }
getrandom = "=0.4.3"
reqwest = { version = "=0.12.28", default-features = false }
tokio = { version = "=1.54.1", features = ["fs", "io-util", "net", "time", "sync", "rt"] }
async-trait = "=0.1.92"
thiserror = "=2.0.21"
serde = { version = "=1.0.229", features = ["derive"] }
serde_json = "=1.0.154"
anyhow = "=1.0.104"
