[package]
name = "anyrun_weather"
version = "0.1.0"
edition = "2021"
publish = false

[dependencies]
nonempty = "*"
sys-locale = "0.3"
abi_stable = "0.11"
anyrun-plugin = "*"
reqwest = { version = "0.12", default-features = false, features = ["blocking", "json", "rustls-tls"] }
ron = "0.8"
rust-i18n = "3"
serde = { version = "1", features = ["derive"] }
