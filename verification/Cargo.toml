[package]
name = "write_behind_cache"
version = "0.1.0"
edition = "2021"
publish = false

[dependencies]
bcrypt = "=0.19.3"
redis = { version = "=1.7.1", features = ["tokio-comp"] }
tokio = { version = "*", features = ["full"] }
serde = { version = "*", features = ["derive"] }
serde_json = "*"
axum = "=0.8.9"
sqlx = { version = "=0.9.0", features = ["runtime-tokio", "sqlite"] }
chrono = { version = "*", features = ["serde"] }
jsonwebtoken = "=11.1.0"
futures-util = "*"
http-body-util = "*"
bytes = "*"
tower-http = { version = "*", features = ["cors"] }
dotenv = "*"
