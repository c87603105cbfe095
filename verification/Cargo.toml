[package]
name = "amqp_framing"
version = "0.1.0"
edition = "2021"
publish = false

[dependencies]
amqp_serde = "*"
bytes = "*"
serde = { version = "*", features = ["derive"] }
tokio = { version = "*", features = ["net", "io-util"] }
