[package]
name = "async_tungstenite"
version = "0.1.0"
edition = "2021"
publish = false

[dependencies]
tungstenite = "=0.30.0"
futures-core = "=0.3.34"
futures-io = "=0.3.34"
futures-util = { version = "=0.3.34", features = ["sink"] }
