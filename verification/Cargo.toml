[package]
name = "capability_auth"
version = "0.1.0"
edition = "2021"
publish = false

[dependencies]
hex = { version = "0.4", features = ["serde"] }
ring = "0.17"
actix-web = "4"
actix-files = "0.6"
anyhow = "1"
env_logger = "0.11"
futures = "0.3"
serde = { version = "1", features = ["derive"] }
serde_json = "1"
sqlx = { version = "0.8", default-features = false, features = ["postgres", "runtime-tokio", "macros", "migrate"] }
toml = "0.8"
