[package]
name = "klt"
version = "0.1.0"
edition = "2021"
publish = false

[dependencies]
base16ct = { version = "=0.2.0", features = ["alloc"] }
better-panic = "=0.3.0"
bytes = "=1.12.1"
clap = { version = "=4.6.7", features = ["derive"] }
flate2 = "=1.1.10"
futures = "=0.3.34"
miette = { version = "=7.6.0", features = ["fancy"] }
oci-spec = "=0.10.0"
reqwest = { version = "=0.12.28", default-features = false, features = ["json", "rustls-tls"] }
secrecy = { version = "=0.10.3", features = ["serde"] }
serde = { version = "=1.0.229", features = ["derive"] }
serde_json = "=1.0.154"
serde_with = "=3.24.0"
sha2 = "=0.10.9"
shellexpand = "=3.1.2"
tar = "=0.4.46"
tokio = { version = "=1.54.1", features = ["macros", "rt"] }
toml = "=0.8.23"
tracing = "=0.1.44"
tracing-subscriber = { version = "=0.3.23", features = ["env-filter"] }
url = "=2.5.8"

[dev-dependencies]
regex = "=1.13.1"
