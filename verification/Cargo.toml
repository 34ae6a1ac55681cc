[package]
name = "amr_database"
version = "0.1.0"
edition = "2021"
publish = false

[dependencies]
axum = { version = "0.7", features = ["ws", "multipart"] }
tokio = { version = "1", features = ["full"] }
serde = { version = "1", features = ["derive"] }
serde_json = "1"
sqlx = { version = "0.8", default-features = false, features = ["runtime-tokio", "sqlite", "derive"] }
tower-http = { version = "0.5", features = ["fs"] }
utoipa = "4"
utoipa-swagger-ui = { version = "7", features = ["axum"] }
