[package]
name = "stdout_dup"
version = "0.1.0"
edition = "2021"
publish = false

[dependencies]
tokio = { version = "1", features = ["full"] }
os_pipe = "1"
command-group = { version = "5", features = ["with-tokio"] }
futures = "0.3"
tokio-stream = "0.1"
tokio-util = { version = "0.7", features = ["io"] }
tracing = "0.1"
serde = { version = "1", features = ["derive"] }
ts-rs = "*"
