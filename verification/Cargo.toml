[package]
name = "format_policy"
version = "0.1.0"
edition = "2021"
publish = false

[dependencies]
oxc_syntax = "=0.139.0"
rustc-hash = "*"
serde = "*"
