[package]
name = "fast_chat"
version = "0.1.0"
edition = "2021"
publish = false

[dependencies]
axum = { version = "0.7", features = ["ws", "macros"] }
axum-extra = { version = "0.9", features = ["typed-header"] }
axum-macros = "0.4"
bcrypt = "0.15"
chrono = { version = "0.4", features = ["serde"] }
config = { version = "0.14", default-features = false, features = ["yaml"] }
futures-util = "0.3"
jsonwebtoken = "9"
juniper = { version = "0.16", default-features = false, features = ["uuid", "chrono"] }
redis = { version = "0.24", features = ["tokio-comp", "connection-manager", "streams"] }
secrecy = { version = "0.8", features = ["serde"] }
serde = { version = "1", features = ["derive"] }
serde_json = "1"
sqlx = { version = "0.7", default-features = false, features = ["runtime-tokio", "postgres", "uuid", "chrono", "macros"] }
thiserror = "1"
tokio = { version = "1", features = ["rt-multi-thread", "macros", "sync", "time", "signal", "net"] }
tower-http = { version = "0.5", features = ["cors", "trace"] }
tracing = "0.1"
tracing-subscriber = "0.3"
unicode-segmentation = "1"
uuid = { version = "1", features = ["v4", "serde"] }
validator = "0.16"
