[package]
name = "lsp_commands"
version = "0.1.0"
edition = "2021"
publish = false

[dependencies]
log = "=0.4.35"
lsp-types = "=0.94.1"
serde_json = { version = "=1.0.154", features = ["float_roundtrip"] }
tokio = { version = "=1.54.1", features = ["rt"] }
url = "=2.5.8"
