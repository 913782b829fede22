[package]
name = "traceroute"
version = "0.1.0"
edition = "2021"
publish = false

[dependencies]
anyhow = "1"
pnet = "*"
tokio = { version = "1", features = ["full"] }
tracing = "0.1"
socket2 = "*"
dns-lookup = "*"
