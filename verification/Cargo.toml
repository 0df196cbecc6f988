[package]
name = "aktor"
version = "0.1.0"
edition = "2021"
publish = false

[dependencies]
async-trait = "0.1"
dashmap = "6"
rand = "0.8"
reqwest = { version = "0.12", default-features = false, features = ["blocking"] }
serde = { version = "1", features = ["derive"] }
thiserror = "1"
tokio = { version = "1", features = ["macros", "rt", "rt-multi-thread", "sync", "time"] }
tracing = "0.1"
uuid = { version = "1", features = ["serde", "v4"] }
