[package]
name = "adcmt7351"
version = "0.1.0"
edition = "2021"
publish = false

[dependencies]
rusb = "*"
spin_sleep = "*"
anyhow = "*"
