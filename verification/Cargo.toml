[package]
name = "motion_capture_client"
version = "0.1.0"
edition = "2021"
publish = false

[dependencies]
druid = "0.7"
env_logger = "0.10"
log = "0.4"
paho-mqtt = "0.12"
serde = { version = "1", features = ["derive"] }
serde_json = "1"
uuid = { version = "1", features = ["v4"] }
