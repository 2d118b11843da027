[package]
name = "raz_core"
version = "0.1.0"
edition = "2021"
publish = false

[dependencies]
regex = "=1.13.1"
glob = "=0.3.4"
toml = "=0.8.23"
chrono = "=0.4.45"
tree-sitter = "*"
tree-sitter-rust = "*"
