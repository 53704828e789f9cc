[package]
name = "service_lifecycle"
version = "0.1.0"
edition = "2021"
publish = false

[dependencies]
axum = "0.8"
tokio = { version = "1", features = ["macros", "net", "rt", "signal", "time"] }
lazy_static = "1"
bt_logger = "*"
