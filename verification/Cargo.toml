[package]
name = "notifier"
version = "0.1.0"
edition = "2021"
rust-version = "1.95"
publish = false

[dependencies]
axum = { version = "=0.7.9", features = ["macros"] }
chrono = "=0.4.45"
dotenv = "=0.15.0"
redis = { version = "=0.27.6", features = ["json"] }
serde = { version = "=1.0.229", features = ["derive"] }
serde_json = "=1.0.154"
# Nothing here calls takecell. teloxide depends on it, and its 0.1.2 asks for
# a compiler newer than rust-version, so it is held at 0.1.1.
takecell = "=0.1.1"
teloxide = "=0.13.0"
tokio = { version = "=1.54.1", features = ["macros", "net", "rt", "sync", "time"] }
tower-http = { version = "=0.5.2", features = ["trace"] }
tracing = "=0.1.44"
tracing-subscriber = "=0.3.23"
uuid = { version = "=1.29.0", features = ["v4"] }
