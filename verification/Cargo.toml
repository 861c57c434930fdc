[package]
name = "franz"
version = "0.1.0"
edition = "2021"
publish = false

[dependencies]
dashmap = "*"
uuid = { version = "*", features = ["v4"] }
actix-web = "*"
clap = "*"
serde = { version = "*", features = ["derive"] }
env_logger = "*"
log = "*"
tokio = { version = "*", features = ["rt"] }
kafka = { version = "*", default-features = false }
