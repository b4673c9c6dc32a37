[package]
name = "task_scheduler"
version = "0.1.0"
edition = "2021"
publish = false

[dependencies]
rand = "0.8"
futures = "0.3"
mio = { version = "0.8", features = ["net", "os-poll"] }
tokio = { version = "1", features = ["rt"] }
