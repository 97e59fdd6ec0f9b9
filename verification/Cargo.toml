[package]
name = "asm_query"
version = "0.1.0"
edition = "2021"
publish = false

[dependencies]
anyhow = "1"
asm-lsp = "*"
clap = { version = "4", features = ["derive"] }
flexi_logger = "*"
lsp-types = "*"
