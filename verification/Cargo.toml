[package]
name = "harbourmaster"
version = "0.1.0"
edition = "2021"
publish = false

[dependencies]
shiplift = { version = "=0.7.0", default-features = false, features = ["unix-socket", "tls"] }
rand = "=0.8.8"
futures-util = "=0.3.34"
lazy_static = "=1.5.1"
log = "=0.4.34"
