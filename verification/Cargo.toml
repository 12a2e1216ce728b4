[package]
name = "zoetrope_core"
version = "0.1.0"
edition = "2021"
publish = false

[dependencies]
image = "*"
nokhwa = { version = "*", features = ["input-native"] }
btleplug = "*"
tokio = { version = "*", features = ["rt-multi-thread", "time", "macros"] }
futures = "*"
uuid = "*"
