[package]
name = "kuberift"
version = "0.1.0"
edition = "2021"
publish = false

[dependencies]
fast_qr = "*"
tokio = { version = "*", features = ["full"] }
mio = { version = "*", features = ["os-poll", "os-ext"] }
crossterm = "*"
ratatui = "*"
eyre = "*"
