[package]
name = "xixi_verifier"
version = "0.1.0"
edition = "2021"
publish = false

[dependencies]
sha2 = "=0.10.9"
rkyv = { version = "=0.7.46", features = ["validation"] }
serde = { version = "=1.0.229", features = ["derive"] }
serde_json = "=1.0.151"
hex = "=0.4.3"
anyhow = "=1.0.104"
