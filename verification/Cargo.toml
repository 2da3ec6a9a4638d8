[package]
name = "rust_lambda"
version = "0.1.0"
edition = "2021"
publish = false

[dependencies]
lambda_runtime = "*"
serde = { version = "*", features = ["derive"] }
serde_json = "*"
tokio = { version = "*", features = ["macros", "rt-multi-thread"] }
tracing = "*"
tracing-subscriber = { version = "*", features = ["env-filter", "json", "time"] }
