[package]
name = "preagonal"
version = "0.1.0"
edition = "2021"
publish = false

[dependencies]
bzip2 = "0.4"
flate2 = "1"
rand = "0.8"
rc4 = "0.1"
rsa = "0.9"
serde = { version = "1", features = ["derive"] }
thiserror = "1"
log = "0.4"
log4rs = "1"
tokio = { version = "1", features = ["full"] }
toml = "0.8"
serenity = "0.12"
reqwest = { version = "0.12", default-features = false, features = ["rustls-tls"] }
