[package]
name = "hdmi_switch"
version = "0.1.0"
edition = "2021"
publish = false

[dependencies]
anyhow = "*"
indexmap = "*"
serde = { version = "*", features = ["derive"] }
serde_yaml = "*"
structopt = "*"
telnet = "*"
