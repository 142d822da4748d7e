[package]
name = "apps_inventory"
version = "0.1.0"
edition = "2021"
publish = false

[dependencies]
axum = "0.7"
tokio = { version = "1", features = ["rt-multi-thread", "macros", "net"] }
serde = { version = "1", features = ["derive"] }
serde_json = "1"
chrono = { version = "0.4", features = ["serde"] }
aws-config = "1"
aws-sdk-dynamodb = "1"
aws-sdk-secretsmanager = "1"
serde_dynamo = { version = "4", features = ["aws-sdk-dynamodb+1"] }
validator = { version = "0.18", features = ["derive"] }
thiserror = "1"
