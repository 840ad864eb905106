[package]
name = "livegas"
version = "0.1.0"
edition = "2021"
publish = false

[dependencies]
ethers = { version = "2", default-features = false, features = ["ws"] }
sqlx = { version = "0.7", default-features = false, features = ["sqlite", "runtime-tokio"] }
tokio = { version = "1", features = ["macros", "rt-multi-thread", "sync"] }
tokio-stream = "0.1"
tonic = "0.11"
tonic-web = "0.11"
tonic-health = "0.11"
tower-http = { version = "0.4", features = ["cors"] }
tower-layer = "0.3"
http = "0.2"
prost = "0.12"
dotenv = "0.15"
thiserror = "1"
tracing = "0.1"
tracing-subscriber = "0.3"
