[package]
name = "livepreview"
version = "0.1.0"
edition = "2021"
publish = false

[dependencies]
anyhow = "1"
clap = "2"
futures-util = "0.3"
http = "0.2"
tokio = { version = "1", features = ["full"] }
warp = "0.3"
