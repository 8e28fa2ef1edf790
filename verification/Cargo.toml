[package]
name = "arpc_proxy"
version = "0.1.0"
edition = "2021"
publish = false

[dependencies]
hmac = "*"
sha2 = "*"
hex = "*"
uuid = { version = "*", features = ["v4"] }
serde = { version = "*", features = ["derive"] }
serde_json = "*"
axum = "*"
tokio = { version = "*", features = ["macros", "rt-multi-thread", "net", "time"] }
reqwest = { version = "*", default-features = false, features = ["json"] }
sqlx = { version = "*", default-features = false, features = ["postgres", "runtime-tokio", "chrono", "uuid", "macros"] }
chrono = { version = "*", features = ["serde"] }
config = "*"
thiserror = "*"
tracing = "*"
tracing-subscriber = { version = "*", features = ["env-filter"] }
tower-http = { version = "*", features = ["trace"] }
