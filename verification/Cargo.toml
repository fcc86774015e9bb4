[package]
name = "app_lib"
version = "0.1.0"
edition = "2021"
publish = false

[dependencies]
encoding_rs = "0.8"
tokio-util = "0.7"
zip = { version = "2", default-features = false, features = ["deflate"] }
serde_json = "1"
