[package]
name = "nauta_ui"
version = "0.1.0"
edition = "2021"
publish = false

[dependencies]
anyhow = "1.0"
softbuffer = "0.4"
tracing = "0.1"
winit = "0.30"
