[package]
name = "microservice"
version = "0.1.0"
edition = "2021"
publish = false

[dependencies]
url = "*"
serde_json = "*"
hyper = "0.11"
futures = "0.1"
log = "*"
env_logger = "*"
