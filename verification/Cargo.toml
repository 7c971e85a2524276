[package]
name = "autoroom"
version = "0.1.0"
edition = "2021"
publish = false

[dependencies]
serenity = { version = "0.12", default-features = false, features = ["builder", "cache", "client", "gateway", "http", "model", "utils", "rustls_backend"] }
poise = { version = "0.6", default-features = false, features = ["cache"] }
sqlx = { version = "0.8", default-features = false, features = ["postgres", "runtime-tokio"] }
tokio = { version = "1", features = ["macros", "rt-multi-thread", "sync"] }
futures = "0.3"
tracing = "0.1"
tracing-subscriber = "0.3"
dotenv = "0.15"
