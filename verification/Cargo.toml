[package]
name = "subathon_timer"
version = "0.1.0"
edition = "2021"
publish = false

[dependencies]
chrono = "0.4"
serde = { version = "1", features = ["derive"] }
serde_json = "1"
tokio = { version = "1", features = ["macros", "rt-multi-thread", "sync", "time"] }
warp = { version = "0.3", default-features = false }
hyper = { version = "0.14", default-features = false }
reqwest = { version = "0.11", default-features = false }
