[package]
name = "phone_client"
version = "0.1.0"
edition = "2021"
publish = false

[dependencies]
hmac-sha256 = "*"
base64 = "*"
serde = { version = "*", features = ["derive"] }
serde_json = "*"
reqwest = { version = "*", default-features = false, features = ["json"] }
tokio = { version = "*", features = ["macros", "rt-multi-thread"] }
clap = { version = "*", features = ["derive", "env"] }
dotenv = "*"
log = "*"
pretty_env_logger = "*"
aws-config = "*"
aws-sdk-cloudwatch = "*"
