[package]
name = "wagonet"
version = "0.7.2"
edition = "2021"
publish = false

[dependencies]
async-trait = "0.1"
native-tls = "0.2"
socket2 = { version = "0.6", features = ["all"] }
strum_macros = "*"
thiserror = "2"
tokio = { version = "1", features = ["io-util", "macros", "net", "rt", "sync", "time"] }
tokio-native-tls = "0.3"
tracing = "0.1"
