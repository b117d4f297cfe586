[package]
name = "pdf_extract_node"
version = "0.1.0"
edition = "2021"
publish = false

[dependencies]
pdf-extract = "*"
uuid = { version = "*", features = ["v4"] }
napi = "*"
napi-derive = "*"
