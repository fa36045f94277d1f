[package]
name = "capabilityapi"
version = "0.1.0"
edition = "2021"
publish = false

[dependencies]
unicode-segmentation = "*"
serde = { version = "*", features = ["derive"] }
serde_json = "*"
actix-web = "*"
actix-web-httpauth = "*"
async-trait = "*"
config = "*"
env_logger = "*"
serde-aux = "*"
sqlx = { version = "*", default-features = false, features = ["sqlite", "runtime-tokio"] }
