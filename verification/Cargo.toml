[package]
name = "remote_shutdown"
version = "0.1.0"
edition = "2021"
publish = false

[dependencies]
rocket = "=0.5.2"
slint = { version = "1", default-features = false, features = ["std", "compat-1-2"] }
xdg = "=2.5.2"
