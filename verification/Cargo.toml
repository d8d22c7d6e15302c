[package]
name = "distribution"
version = "0.1.0"
edition = "2021"
publish = false

[dependencies]
sha2 = "0.10"
chrono = { version = "0.4", default-features = false, features = ["clock", "std"] }
serde = { version = "1", features = ["derive"] }
serde_json = "1"
axum = "0.7"
tokio = { version = "1", features = ["macros", "rt-multi-thread", "sync"] }
async-trait = "0.1"
tracing = "0.1"
thiserror = "1"
bytes = "1"
uuid = { version = "1", features = ["v4"] }
bson = "2"
redis = { version = "0.25", default-features = false, features = ["aio", "tokio-comp"] }
