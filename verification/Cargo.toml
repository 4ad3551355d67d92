[package]
name = "replicante_core"
version = "0.1.0"
edition = "2021"
publish = false

[dependencies]
anyhow = "=1.0.104"
lazy_static = "=1.5.1"
prometheus = { version = "=0.13.4", default-features = false }
reqwest = { version = "=0.11.27", default-features = false, features = ["blocking", "json", "rustls-tls"] }
rusqlite = { version = "=0.29.0", features = ["bundled"] }
serde = { version = "=1.0.229", features = ["derive"] }
serde_json = "=1.0.154"
sha2 = "=0.10.9"
slog = "=2.8.2"
thiserror = "=1.0.69"
uuid = { version = "=1.29.0", features = ["v4"] }
zookeeper = "=0.8.0"
