[package]
name = "rockscrew"
version = "0.1.0"
edition = "2021"
publish = false

[dependencies]
base64 = "=0.23.1"
httparse = "=1.10.1"
compio = { version = "=0.19.2", features = ["fs", "net", "macros", "io"] }
futures-util = "=0.3.34"
