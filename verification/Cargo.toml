[package]
name = "receipt_format"
version = "0.1.0"
edition = "2021"
publish = false

[dependencies]
async-trait = "=0.1.92"
aws-config = "=1.6.3"
aws-sdk-s3 = "=1.152.0"
lambda_http = "=1.3.2"
lambda_runtime = "=1.5.0"
serde = { version = "=1.0.229", features = ["derive"] }
serde_json = "=1.0.154"
tokio = { version = "=1.54.1", features = ["macros", "rt-multi-thread"] }
