[package]
name = "camera_test"
version = "0.1.0"
edition = "2021"
publish = false

[dependencies]
anyhow = "=1.0.104"
glam = "=0.34.1"
glfw = "=0.45.0"
luminance-front = "=0.6.1"
luminance-glfw = "=0.18.3"
serde = { version = "=1.0.229", features = ["derive"] }
serde_json = "=1.0.154"
tracing = "=0.1.44"
tracing-appender = "0.2"
tracing-bunyan-formatter = "=0.3.11"
tracing-subscriber = { version = "=0.3.23", features = ["env-filter"] }
