[package]
name = "twitter_sibyl_system"
version = "0.1.0"
edition = "2021"
publish = false

[dependencies]
actix-files = "=0.1.7"
actix-rt = "=0.2.6"
actix-web = { version = "=1.0.9", default-features = false }
chrono = "=0.4.19"
clap = "=2.34.0"
futures = "=0.1.31"
log = "0.4"
metrics-core = "=0.5.2"
metrics-runtime = "=0.12.1"
num_cpus = "=1.17.0"
sentiment = "=0.1.1"
serde = "1"
serde_derive = "1"
serde_json = "1"
simple_logger = "=1.16.0"
tokio = "=0.1.22"
tokio-timer = "=0.2.13"
toml = "=0.5.11"
twitter-stream = "=0.9.0"
