[package]
name = "qrai_scanner"
version = "0.1.0"
edition = "2021"
publish = false

[dependencies]
image = "*"
rxing = "*"
rqrr = "*"
rayon = "*"
clap = { version = "*", features = ["derive"] }
anyhow = "*"
serde = { version = "*", features = ["derive"] }
serde_json = "*"

[dev-dependencies]
qrcode = "*"
