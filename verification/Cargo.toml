[package]
name = "bindiff_rs"
version = "0.1.0"
edition = "2021"
publish = false

[dependencies]
anyhow = "=1.0.104"
calm_io = "=0.1.1"
chrono = { version = "=0.4.45", features = ["serde"] }
rusqlite = { version = "=0.40.2", features = ["bundled", "chrono"] }
scopeguard = "=1.2.0"
serde = { version = "=1.0.229", features = ["derive"] }
serde_json = "=1.0.154"

[dev-dependencies]
prost = "=0.14.4"
