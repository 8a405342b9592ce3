[package]
name = "poweredup"
version = "0.1.0"
edition = "2021"
publish = false

[dependencies]
bytes = "1"
thiserror = "2"
tokio = { version = "1", features = ["sync", "macros", "rt"] }
tracing = "0.1"
uuid = "1"
