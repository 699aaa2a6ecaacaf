[package]
name = "pandora_launcher"
version = "0.1.0"
edition = "2021"
publish = false

[dependencies]
chrono = { version = "=0.4.45", features = ["serde"] }
slab = "=0.4.12"
hex = "=0.4.3"
sha1 = "=0.10.7"
serde = { version = "=1.0.229", features = ["derive"] }
serde_json = "=1.0.154"
tokio = { version = "=1.54.1", features = ["macros", "rt-multi-thread", "net", "io-util", "sync", "time"] }
uuid = { version = "=1.29.0", features = ["serde", "v4"] }
thiserror = "=2.0.21"
log = "=0.4.34"
reqwest = { version = "=0.12.28", default-features = false, features = ["json", "rustls-tls"] }
base64 = "=0.22.1"
rand = "=0.10.3"
sha2 = "=0.10.9"
oo7 = "=0.6.0"
