[package]
name = "deliveryservice"
version = "0.1.0"
edition = "2021"
publish = false

[dependencies]
anyhow = "1"
bytes = "1"
chrono = "0.4"
dotenv = "0.15"
env_logger = "0.11"
futures = "0.3"
lapin = { version = "2", default-features = false }
log = "0.4"
prost = "0.13"
prost-wkt-types = "0.6"
rand = "0.9"
redis = { version = "0.27", features = ["tokio-comp"] }
serde = { version = "1", features = ["derive"] }
sqlx = { version = "0.8", default-features = false, features = ["sqlite", "runtime-tokio"] }
tokio = { version = "1", features = ["rt-multi-thread", "macros", "sync", "time"] }
tokio-stream = "0.1"
tonic = "0.12"
