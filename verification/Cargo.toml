[package]
name = "wayland_socket"
version = "0.1.0"
edition = "2021"
publish = false

[dependencies]
rustix = { version = "=1.1.5", features = ["fs", "net"] }
tokio = { version = "=1.53.2", features = ["net", "rt"] }
