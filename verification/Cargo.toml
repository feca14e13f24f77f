[package]
name = "drum_sampler"
version = "0.1.0"
edition = "2021"
publish = false

[dependencies]
serde = { version = "=1.0.229", features = ["derive"] }
serde_json = "=1.0.154"
toml = "=1.2.1"
log = "=0.4.35"
anyhow = "=1.0.104"
symphonia = "=0.6.1"
midir = "=0.11.1"
cpal = "=0.15.3"
