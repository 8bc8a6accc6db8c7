[package]
name = "wakatime-ls"
version = "0.1.0"
edition = "2021"
publish = false

[dependencies]
lsp-server = "=0.10.0"
lsp-types = "=0.97.0"
serde = "=1.0.229"
serde_json = "=1.0.154"
ureq = "2"
zip = { version = "2", default-features = false, features = ["deflate"] }
