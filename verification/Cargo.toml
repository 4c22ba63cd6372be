[package]
name = "task_service"
version = "0.1.0"
edition = "2021"
publish = false

[dependencies]
axum = "*"
serde = { version = "1", features = ["derive"] }
shuttle-axum = "*"
shuttle-runtime = "*"
shuttle-shared-db = { version = "*", features = ["postgres", "sqlx"] }
sqlx = { version = "0.8", default-features = false, features = ["postgres", "runtime-tokio", "uuid", "migrate"] }
tokio = "1"
tower = "*"
tower-http = { version = "*", features = ["cors"] }
uuid = { version = "1", features = ["v4", "serde"] }
