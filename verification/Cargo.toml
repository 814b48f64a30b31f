[package]
name = "steel"
version = "0.1.0"
edition = "2021"
publish = false

[dependencies]
tokio = { version = "1", features = ["rt-multi-thread", "net", "macros", "signal", "io-util", "sync"] }
tokio-util = { version = "0.7", features = ["rt"] }
