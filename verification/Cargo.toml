[package]
name = "posts_broker"
version = "0.1.0"
edition = "2021"
publish = false

[dependencies]
anyhow = "1"
axum = { version = "0.8", features = ["ws"] }
bytes = "1"
dashmap = "6"
deadpool = { version = "0.12", features = ["rt_tokio_1"] }
deadpool-lapin = { version = "0.12", features = ["rt_tokio_1"] }
diesel = { version = "2", features = ["postgres", "uuid"] }
diesel-async = { version = "0.5", features = ["postgres", "deadpool"] }
diesel_migrations = "2"
figment = { version = "0.10", features = ["json", "env"] }
futures = "0.3"
futures-util = "0.3"
lapin = { version = "2", default-features = false }
maud = "*"
notify = "*"
serde = { version = "1", features = ["derive"] }
serde_json = "1"
tera = "1"
tokio = { version = "1", features = ["full", "test-util"] }
tokio-executor-trait = "2"
tokio-reactor-trait = "1"
tokio-stream = "0.1"
tower = "0.5"
tower-http = { version = "0.6", features = ["trace", "cors", "compression-gzip", "fs", "set-header"] }
tracing = "0.1"
tracing-forest = "*"
tracing-subscriber = { version = "0.3", features = ["env-filter"] }
uuid = { version = "1", features = ["v7", "serde"] }
