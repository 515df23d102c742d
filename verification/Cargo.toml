[package]
name = "rust_web_dev"
version = "0.1.0"
edition = "2021"
publish = false

[dependencies]
warp = "0.3"
tokio = { version = "1", features = ["macros", "rt-multi-thread"] }
tracing = "0.1"
tracing-subscriber = { version = "0.3", features = ["env-filter"] }
clap = { version = "3", features = ["derive"] }
dotenv = "0.15"
sqlx = { version = "0.7", default-features = false, features = ["postgres", "migrate", "runtime-tokio"] }
reqwest = { version = "0.11", default-features = false }
reqwest-middleware = "0.2"
argon2 = "0.5"
