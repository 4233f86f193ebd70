[package]
name = "pipedream"
version = "0.1.0"
edition = "2021"
publish = false

[dependencies]
chrono = "*"
serde = { version = "*", features = ["derive"] }
serde_json = "*"
serde_dynamo = { version = "*", features = ["aws-sdk-dynamodb+1"] }
aws-config = "*"
aws-sdk-dynamodb = "*"
aws-credential-types = "*"
aws-types = "*"
jsonwebtoken = "*"
reqwest = { version = "*", default-features = false, features = ["json", "rustls-tls"] }
tokio = { version = "*", features = ["rt-multi-thread", "macros", "time", "sync"] }
anyhow = "*"
log = "*"
simple_logger = "*"
dotenvy = "*"
