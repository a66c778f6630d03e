[package]
name = "sensehat_stick"
version = "0.1.0"
edition = "2021"
publish = false

[dependencies]
evdev = { version = "*", features = ["tokio"] }
futures-core = "*"
glob = "*"
pin-project = "*"
