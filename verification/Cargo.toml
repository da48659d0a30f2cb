[package]
name = "ticket_service"
version = "0.1.0"
edition = "2021"
publish = false

[dependencies]
axum = "0.7"
serde = { version = "1", features = ["derive"] }
serde_json = "1"
tokio = { version = "1", features = ["full"] }
tower-cookies = "0.10"
tower-http = { version = "0.5", features = ["fs"] }
uuid = { version = "1", features = ["v4", "fast-rng"] }
