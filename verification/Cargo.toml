[package]
name = "passchain"
version = "0.1.0"
edition = "2021"
publish = false

[dependencies]
anyhow = "1"
argon2 = "0.5"
base64 = "0.22"
blake3 = "1"
clap = { version = "4", features = ["derive"] }
convert-base = "1"
ctap-hid-fido2 = "3"
entropy = "*"
futures = "0.3"
hex = "0.4"
indicatif = "*"
inquire = "*"
notify = "*"
ratatui = "*"
ring = "0.17"
serde = { version = "1", features = ["derive"] }
sha2 = "0.10"
sha3 = "0.10"
strum = { version = "*", features = ["derive"] }
thiserror = "*"
tokio = { version = "1", features = ["full"] }
toml = "*"
tracing = "0.1"
tracing-indicatif = "*"
tracing-subscriber = "0.3"
