[package]
name = "compio-net"
version = "0.1.0"
edition = "2021"
publish = false

[dependencies]
compio-buf = "=0.2.0"
compio-driver = "=0.2.2"
compio-runtime = "=0.2.0"
socket2 = { version = "=0.5.10", features = ["all"] }
