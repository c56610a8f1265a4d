[package]
name = "i2pd_exporter"
version = "0.1.0"
edition = "2021"
publish = false

[dependencies]
serde_json = "=1.0.151"
clap = { version = "=4.6.7", features = ["derive", "env"] }
log = "=0.4.34"
env_logger = "=0.11.11"
tokio = { version = "=1.53.2", features = ["macros", "rt-multi-thread", "sync", "time"] }
warp = { version = "=0.4.3", features = ["server"] }
reqwest = { version = "=0.12.28", default-features = false, features = ["rustls-tls"] }
prometheus-client = "=0.25.1"
