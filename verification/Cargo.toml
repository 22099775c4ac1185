[package]
name = "bootlet"
version = "0.1.0"
edition = "2021"
publish = false

[dependencies]
fatfs = "*"
anyhow = "*"
clap = { version = "*", features = ["derive"] }
serde = { version = "*", features = ["derive"] }
serde_yaml = "*"
reqwest = { version = "*", default-features = false, features = ["blocking", "rustls-tls"] }
indicatif = "*"

[dev-dependencies]
cpio = "*"
