[package]
name = "reqwest"
version = "0.2.0"
edition = "2021"
publish = false

[dependencies]
url = "*"
serde = "*"
serde_json = "*"
serde_urlencoded = "*"
hyper = "0.10"
hyper-native-tls = "0.3"
