[package]
name = "rollback"
version = "0.1.0"
edition = "2021"
publish = false

[dependencies]
tokio = { version = "1", features = ["net", "sync", "rt-multi-thread", "time", "macros"] }
bincode = { version = "2", features = ["serde"] }
serde = { version = "1", features = ["derive"] }

[dev-dependencies]
approx = "0.5"
