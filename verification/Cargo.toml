[package]
name = "turntie"
version = "0.1.0"
edition = "2021"
publish = false

[dependencies]
anyhow = "*"
argh = "*"
base64 = "*"
bytes = "*"
flate2 = "*"
futures = "*"
pin-project = "*"
tokio = { version = "*", features = ["net", "rt", "io-std", "io-util", "macros"] }
tokio-util = { version = "*", features = ["codec"] }
turnclient = "*"
