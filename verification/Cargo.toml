[package]
name = "async-time-mock"
version = "0.1.0"
edition = "2021"
publish = false

[dependencies]
async-io = "2"
async-lock = "3"
async-std = { version = "1", features = ["unstable"] }
event-listener = "5"
futures-core = "0.3"
pin-project = "1"
pin-project-lite = "0.2"
tokio = { version = "1", features = ["time"] }

[dev-dependencies]
futures-lite = "2"
