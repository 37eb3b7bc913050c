[package]
name = "newsletter_backend"
version = "0.1.0"
edition = "2021"
publish = false

[dependencies]
aws-config = "1"
aws-sdk-dynamodb = "1"
aws-sdk-sqs = "1"
chrono = "0.4"
email_address = "0.2"
lambda_http = "*"
lambda_runtime = "*"
serde = { version = "1", features = ["derive"] }
serde_json = "1"
tokio = { version = "1", features = ["macros", "rt-multi-thread"] }
tracing = "0.1"
tracing-subscriber = "0.3"
uuid = { version = "1", features = ["v4"] }
