[package]
name = "wgsl_ls"
version = "0.1.0"
edition = "2021"
publish = false

[dependencies]
naga = { version = "*", default-features = false, features = ["wgsl-in"] }
lsp-server = "*"
lsp-types = "*"
serde = "*"
serde_json = "*"
