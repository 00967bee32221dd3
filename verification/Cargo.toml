[package]
name = "covermint"
version = "0.2.0"
edition = "2021"
publish = false

[dependencies]
url = "=2.5.8"
serde = { version = "=1.0.229", features = ["derive"] }
serde_json = "=1.0.154"
toml = "=1.1.8"
ureq = "=2.12.1"
zbus = "5"
reqwest = { version = "=0.12.28", default-features = false, features = ["blocking", "rustls-tls"] }
gtk4 = { version = "=0.11.5", features = ["v4_8"] }
gtk4-layer-shell = "=0.8.1"
