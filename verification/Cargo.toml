[package]
name = "prae"
version = "0.1.0"
edition = "2021"
publish = false

[dependencies]
proc-macro2 = "=1.0.107"
quote = "=1.0.47"
serde = "1"
syn = { version = "=1.0.109", features = ["full"] }
