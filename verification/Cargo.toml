[package]
name = "ui"
version = "0.1.0"
edition = "2021"
publish = false

[dependencies]
anyhow = "=1.0.104"
lsp-types = "=0.97.0"
ropey = "=1.6.1"
serde_json = "=1.0.154"
