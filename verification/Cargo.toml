[package]
name = "cargo_wgsl"
version = "0.1.0"
edition = "2021"
publish = false

[dependencies]
naga = { version = "*", features = ["wgsl-in"] }
colored = "*"
walkdir = "*"
serde = { version = "1", features = ["derive"] }
serde_json = "1"
tokio = { version = "1", features = ["rt-multi-thread"] }
jsonrpc-stdio-server = "*"
lsp-server = "*"
lsp-types = "*"
simplelog = "*"
log = "*"
