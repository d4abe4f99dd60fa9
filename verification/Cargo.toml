[package]
name = "gocontroll_platform"
version = "0.1.0"
edition = "2021"
publish = false

[dependencies]
spidev = "*"
i2c-linux = "*"
tokio = { version = "*", features = ["rt"] }
