[package]
name = "quic_interop"
version = "0.1.0"
edition = "2021"
publish = false

[dependencies]
url = "*"
tokio = { version = "*", features = ["full"] }
quinn = "*"
rustls = "*"
rustls-pemfile = "*"
rustls-native-certs = "*"
futures = "*"
anyhow = "*"
log = "*"
log4rs = "*"
h3 = "*"
h3-quinn = "*"
http = "*"
bytes = "*"
