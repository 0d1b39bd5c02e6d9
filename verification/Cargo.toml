[package]
name = "libcfhdb"
version = "0.1.0"
edition = "2021"
publish = false

[dependencies]
serde_json = "=1.0.151"
serde = { version = "=1.0.229", features = ["derive"] }
duct = "=1.1.2"
users = "=0.11.0"
reqwest = { version = "=0.13.5", default-features = false, features = ["blocking"] }
pci-info = "=0.4.0"
rusb = "=0.9.4"
