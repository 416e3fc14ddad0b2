[package]
name = "stm32cubeprogrammer"
version = "0.1.0"
edition = "2021"
publish = false

[dependencies]
anyhow = "=1.0.104"
bpaf = { version = "=0.9.28", features = ["derive"] }
env_logger = "=0.11.11"
indicatif = "=0.18.6"
indicatif-log-bridge = "=0.2.3"
libloading = "=0.9.0"
log = "=0.4.34"
serde = { version = "=1.0.229", features = ["derive"] }
serde_json = "=1.0.151"
widestring = "=1.2.1"
