[package]
name = "xipdriver_rs"
version = "0.1.0"
edition = "2021"
publish = false

[dependencies]
anyhow = "=1.0.104"
image = { version = "=0.25.10", default-features = false }
roxmltree = "=0.21.1"
serde_json = "=1.0.151"
