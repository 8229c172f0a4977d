[package]
name = "shizuku-amqp"
version = "0.1.0"
edition = "2021"
publish = false

[dependencies]
amqprs = "=2.1.5"
anyhow = "=1.0.104"
kanau = { version = "=0.6.0", features = ["message"] }
redis = { version = "=1.8.0", features = ["aio", "tokio-comp", "connection-manager"] }
thiserror = "=2.0.21"
tokio = { version = "=1.54.1", features = ["rt", "macros"] }
tracing = "=0.1.44"
