[package]
name = "packrip"
version = "0.1.0"
edition = "2021"
publish = false

[dependencies]
ureq = { version = "2", default-features = false }
serde = { version = "1", features = ["derive"] }
serde_json = "1"
clap = { version = "4", features = ["derive"] }
anyhow = "1"
