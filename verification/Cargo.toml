[package]
name = "mavlink_server"
version = "0.1.0"
edition = "2021"
publish = false

[dependencies]
mavlink = { version = "=0.17.1", features = ["ardupilotmega", "serde"] }
tokio = { version = "=1.54.1", features = ["full"] }
rumqttc = "=0.25.1"
serde = { version = "=1.0.229", features = ["derive"] }
serde_json = "=1.0.154"
anyhow = "=1.0.104"
log = "=0.4.35"
actix-web = "=4.18.1"
num-traits = "=0.2.19"
env_logger = "=0.11.11"
