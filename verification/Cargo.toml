[package]
name = "sjavs"
version = "0.1.0"
edition = "2021"
publish = false

[dependencies]
axum = { version = "0.7", features = ["ws", "macros"] }
chrono = "0.4"
dashmap = "5"
deadpool-redis = "0.14"
futures-util = "0.3"
hyper = "1"
jsonwebtoken = "9"
once_cell = "1"
rand = "0.8"
reqwest = { version = "0.11", default-features = false, features = ["json", "rustls-tls"] }
serde = { version = "1", features = ["derive"] }
serde_json = "1"
tokio = { version = "1", features = ["full"] }
tower = "0.4"
tower-http = { version = "0.5", features = ["cors"] }
utoipa = "4"
uuid = { version = "1", features = ["v4"] }
