[package]
name = "hlas"
version = "0.1.0"
edition = "2021"
publish = false

[dependencies]
anyhow = "1"
arboard = { version = "3", default-features = false }
crossbeam-channel = "0.5"
dirs = "5"
keyring = { version = "3", features = ["windows-native"] }
log = "0.4"
once_cell = "1"
reqwest = { version = "0.12", default-features = false, features = ["blocking", "multipart", "json", "rustls-tls"] }
rubato = "0.15"
serde = { version = "1", features = ["derive"] }
serde_json = "1"
simplelog = "0.12"
winreg = "0.52"
