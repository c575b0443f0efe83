[package]
name = "touchbard"
version = "0.1.0"
edition = "2021"
publish = false

[dependencies]
anyhow = "*"
clap = { version = "*", features = ["derive"] }
evdev = { version = "*", features = ["tokio"] }
glob = "*"
log = "*"
simplelog = "*"
tokio = { version = "*", features = ["full"] }
