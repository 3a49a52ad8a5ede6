[package]
name = "ferrisync"
version = "0.1.0"
edition = "2021"
publish = false

[dependencies]
blake3 = "1"
hex = "0.4"
rusqlite = { version = "*", features = ["bundled"] }
uuid = { version = "1", features = ["v4"] }
directories = "*"
toml = "*"
serde = { version = "1", features = ["derive"] }
clap = { version = "4", features = ["derive"] }
jwalk = "*"
tracing = "0.1"
tracing-subscriber = { version = "0.3", features = ["env-filter", "fmt"] }
anyhow = "1"
crossbeam-channel = "0.5"
thiserror = "*"
