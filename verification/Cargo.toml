[package]
name = "scout"
version = "0.1.0"
edition = "2021"
publish = false

[dependencies]
serde_json = "1"
gotham = "0.7"
hyper = "0.14"
mime = "0.3"
log = "0.4"
env_logger = "0.10"
dotenv = "0.15"
