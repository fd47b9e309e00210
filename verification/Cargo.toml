[package]
name = "niri"
version = "0.1.0"
edition = "2021"
publish = false

[dependencies]
anyhow = "=1.0.104"
async-channel = "=2.5.0"
calloop = "=0.14.5"
futures-util = "=0.3.34"
reis = { version = "=0.7.1", features = ["calloop"] }
smithay = { version = "=0.7.0", default-features = false, features = ["wayland_frontend"] }
zbus = "5"
