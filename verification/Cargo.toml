[package]
name = "retropulse"
version = "0.1.0"
edition = "2021"
publish = false

[dependencies]
uuid = { version = "1", features = ["v4"] }
crossbeam = "0.8"
cpal = "0.15"
libopenmpt-sys = "*"
