[package]
name = "pg_wire"
version = "0.1.0"
edition = "2021"
publish = false

[dependencies]
rand = "0.8"
futures-lite = "1"
async-mutex = "1"
async-io = "1"
blocking = "1"
native-tls = "0.2"
tokio = { version = "1", features = ["net", "io-util", "fs", "rt"] }
tokio-native-tls = "0.3"
