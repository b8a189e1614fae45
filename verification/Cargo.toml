[package]
name = "multibot"
version = "0.1.0"
edition = "2021"
publish = false

[dependencies]
rand = "=0.8.8"
ferris-says = "=0.2.1"
rhai = { version = "=1.27.0", features = ["internals"] }
strfmt = "=0.2.6"
tokio = { version = "=1.54.1", features = ["macros", "rt-multi-thread", "sync", "time"] }
anyhow = "=1.0.104"
log = "=0.4.34"
env_logger = "=0.10.2"
ctrlc = "=3.5.2"
chrono = "=0.4.45"
serde = { version = "=1.0.229", features = ["derive"] }
toml = "=0.8.23"
serenity = "=0.11.7"
axum = "=0.6.20"
reqwest = { version = "=0.13.5", default-features = false }
twitch_api = { version = "=0.8.0", features = ["helix", "client", "reqwest"] }
twitchchat = { version = "=0.14.8", features = ["async", "tokio", "tokio-util"] }
