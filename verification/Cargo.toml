[package]
name = "lsp_bootstrap"
version = "0.1.0"
edition = "2021"
publish = false

[dependencies]
flexi_logger = "*"
log = "0.4"
lsp-server = "*"
lsp-types = "0.95"
serde = { version = "1", features = ["derive"] }
serde_json = "1"
