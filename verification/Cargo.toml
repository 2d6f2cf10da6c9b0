[package]
name = "sxfs"
version = "0.1.0"
edition = "2021"
publish = false

[dependencies]
rusqlite = { version = "*", features = ["bundled"] }
uuid = { version = "*", features = ["v4"] }
rand = "*"
serde = { version = "*", features = ["derive"] }
toml = "*"
chrono = "*"

[dev-dependencies]
base64 = "*"
