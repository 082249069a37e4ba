[package]
name = "gfx_bringup"
version = "0.1.0"
edition = "2021"
publish = false

[dependencies]
anyhow = "1"
thiserror = "1"
tracing = "0.1"
tracing-subscriber = "0.3"
vulkanalia = { version = "*", features = ["libloading", "window"] }
winit = "0.30"
