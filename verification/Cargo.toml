[package]
name = "restloop"
version = "0.1.0"
edition = "2021"
publish = false

[dependencies]
display-info = "=0.5.10"
serde = { version = "=1.0.229", features = ["derive"] }
serde_json = "=1.0.154"
tokio = { version = "1", features = ["macros", "rt", "time"] }
tokio-util = "0.7"
winapi = { version = "0.3", features = ["winuser"] }
