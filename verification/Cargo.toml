[package]
name = "jwt_lookup"
version = "0.1.0"
edition = "2021"
publish = false

[dependencies]
base64 = "0.13"
dotenv = "0.15"
log = "0.4"
mobc = "*"
mobc-redis = "*"
pretty_env_logger = "0.5"
serde = { version = "1", features = ["derive"] }
serde_json = "1"
tokio = { version = "1", features = ["macros", "rt-multi-thread"] }
warp = "0.3"
