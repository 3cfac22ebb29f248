[package]
name = "log_service"
version = "0.1.0"
edition = "2021"
publish = false

[dependencies]
base64 = "0.22"
lz4_flex = "0.11"
chrono = "0.4"
hyper = { version = "1", features = ["full"] }
hyper-util = { version = "0.1", features = ["full"] }
http-body-util = "0.1"
bytes = "1"
tokio = { version = "1", features = ["full"] }
serde = { version = "1", features = ["derive"] }
serde_json = "1"
dotenv = "0.15"
lazy_static = "1"
futures = "0.3"
async-trait = "0.1"
sqlx = { version = "0.8", default-features = false, features = ["sqlite", "runtime-tokio"] }
