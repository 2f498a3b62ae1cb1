[package]
name = "connect4"
version = "0.1.0"
edition = "2021"
publish = false

[dependencies]
axum = "*"
axum-extra = { version = "*", features = ["typed-header"] }
chrono = { version = "*", features = ["serde"] }
dotenvy = "*"
hex = "*"
jsonwebtoken = { version = "10", default-features = false, features = ["rust_crypto"] }
rand = "*"
redis = { version = "*", default-features = false, features = ["tokio-comp", "connection-manager"] }
serde = { version = "*", features = ["derive"] }
serde_json = { version = "*", features = ["preserve_order"] }
sha2 = "*"
sqlx = { version = "*", default-features = false, features = ["postgres", "runtime-tokio", "chrono", "json"] }
tokio = { version = "*", features = ["full"] }
tracing = "*"
uuid = { version = "*", features = ["v4"] }
