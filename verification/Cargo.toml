[package]
name = "refeed_rampage"
version = "0.1.0"
edition = "2021"
publish = false

[dependencies]
uuid = { version = "=0.8.2", features = ["v4", "serde"] }
jsonwebtoken = "=7.2.0"
serde = { version = "1", features = ["derive"] }
serde_json = "=1.0.154"
warp = "=0.2.5"
tokio = { version = "=0.2.25", features = ["full"] }
dynomite = "=0.8.2"
rusoto_core = "0.44"
rusoto_s3 = "0.44"
log = "0.4"
pretty_env_logger = "0.4"
seed = "0.9.2"
