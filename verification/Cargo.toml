[package]
name = "ref-server"
version = "0.1.0"
edition = "2021"
publish = false

[dependencies]
axum = "0.8"
axum-prometheus = "*"
chrono = { version = "0.4", features = ["serde"] }
clap = { version = "4", features = ["derive", "env"] }
diesel = { version = "2", default-features = false, features = ["postgres_backend", "uuid", "chrono"] }
diesel-async = { version = "*", features = ["postgres", "bb8", "async-connection-wrapper", "migrations"] }
diesel_migrations = "2"
eyre = "0.6"
humantime = "2"
serde = { version = "1", features = ["derive"] }
serde_json = "1"
tokio = { version = "1", features = ["full"] }
tower = "0.5"
tower-http = { version = "0.6", features = ["cors"] }
tracing = "0.1"
tracing-subscriber = { version = "0.3", features = ["env-filter"] }
uuid = { version = "1", features = ["serde"] }
