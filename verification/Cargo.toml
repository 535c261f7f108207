[package]
name = "hocket_genet"
version = "0.1.0"
edition = "2021"
publish = false

[dependencies]
personae = "=0.2.1"
serde_json = "=1.0.154"

[dev-dependencies]
tempfile = "=3.27.0"
