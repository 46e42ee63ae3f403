[package]
name = "breaks_queue"
version = "0.1.0"
edition = "2021"
publish = false

[dependencies]
base64 = "0.21"
axum = "0.6"
clap = { version = "4", features = ["derive"] }
dotenv = "0.15"
futures = "0.3"
reqwest = { version = "0.11", default-features = false, features = ["json"] }
reqwest-eventsource = "0.4"
serde = { version = "1", features = ["derive"] }
serde_json = "1"
sqlx = { version = "0.7", default-features = false, features = ["postgres", "runtime-tokio", "json"] }
tokio = { version = "1", features = ["macros", "rt-multi-thread", "sync", "time"] }
tokio-stream = { version = "0.1", features = ["sync"] }
tower-http = { version = "0.4", features = ["cors", "fs", "trace"] }
tracing = "0.1"
tracing-subscriber = "0.3"
