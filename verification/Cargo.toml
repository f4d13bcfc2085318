[package]
name = "net_analytics"
version = "0.1.0"
edition = "2021"
publish = false

[dependencies]
async-trait = "0.1"
axum = { version = "0.7", features = ["ws"] }
serde = { version = "1", features = ["derive"] }
serde_json = "1"
sqlx = { version = "0.8", default-features = false, features = ["sqlite", "runtime-tokio"] }
sqlx-sqlite = "0.8"
sysinfo = "0.30"
tokio = { version = "1", features = ["full"] }
