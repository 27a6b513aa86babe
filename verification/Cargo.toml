[package]
name = "rabbitmq_consumer_lib"
version = "0.3.0"
edition = "2021"
publish = false

[dependencies]
async-std = "=1.13.2"
base64 = "=0.13.1"
chrono = { version = "=0.4.45", features = ["serde"] }
clap = "=2.34.0"
diesel = { version = "=1.4.8", default-features = false, features = ["chrono", "mysql", "r2d2"] }
env_logger = "=0.9.3"
futures = "=0.3.34"
lapin = { version = "=1.10.0", default-features = false }
log = "=0.4.34"
serde = { version = "=1.0.229", features = ["derive"] }
tokio = { version = "=1.54.1", features = ["macros", "process", "rt-multi-thread", "signal", "time"] }
tokio-stream = "=0.1.19"
toml = "=0.5.11"
