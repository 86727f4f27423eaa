[package]
name = "webgrid_smoke"
version = "0.1.0"
edition = "2021"
publish = false

[dependencies]
anyhow = "=1.0.104"
base64 = "=0.23.1"
http = "=1.5.0"
humantime = "=2.4.0"
log = "=0.4.34"
pretty_env_logger = "=0.5.0"
serde_json = "=1.0.151"
thirtyfour = "=0.37.5"
tokio = { version = "=1.53.2", features = ["full"] }
