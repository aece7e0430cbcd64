[package]
name = "sys_voice"
version = "0.1.0"
edition = "2021"
publish = false

[dependencies]
flume = "*"
rubato = "*"
thiserror = "*"
tokio = { version = "*", features = ["rt", "rt-multi-thread"] }
