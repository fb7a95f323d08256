[package]
name = "cheesecake"
version = "0.1.0"
edition = "2021"
publish = false

[dependencies]
anyhow = "1"
axum = "0.7"
axum-extra = { version = "0.9", features = ["cookie"] }
chrono = "0.4"
color-eyre = "0.6"
cookie = "0.18"
debug_print = "1"
dotenv = "0.15"
minify-html = "0.15"
serde = { version = "1", features = ["derive"] }
serde_json = "1"
sqlx = { version = "0.8", default-features = false, features = ["postgres", "runtime-tokio", "migrate"] }
tera = "1"
tokio = { version = "1", features = ["full"] }
tower = { version = "0.5", features = ["limit", "load-shed", "util"] }
tower-http = { version = "0.6", features = ["fs", "timeout", "trace"] }
tracing = "0.1"
tracing-appender = "0.2"
tracing-subscriber = { version = "0.3", features = ["env-filter"] }
uuid = { version = "1", features = ["v4"] }
validator = "0.18"
