[package]
name = "parse_coord"
version = "0.1.0"
edition = "2021"
publish = false

[dependencies]
tree-sitter = "0.24"
emacs = "*"

[dev-dependencies]
tree-sitter-json = "0.24"
