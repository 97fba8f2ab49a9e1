[package]
name = "vrlive-server"
version = "0.1.0"
edition = "2021"
publish = false

[dependencies]
rosc = "=0.11.4"
webrtc = "=0.11.0"
bytes = "=1.12.1"
serde = { version = "=1.0.229", features = ["derive"] }
serde_json = "=1.0.154"
tokio = { version = "=1.54.1", features = ["full"] }
log = "=0.4.35"
simplelog = "=0.12.2"
clap = { version = "=4.6.7", features = ["derive"] }
anyhow = "=1.0.104"
async-trait = "=0.1.92"
rustyline-async = "=0.4.9"
simple_moving_average = "=1.0.2"
interoptopus = "=0.14.27"
