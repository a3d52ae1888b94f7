[package]
name = "interprocess"
version = "0.1.0"
edition = "2021"
publish = false

[dependencies]
nix = "=0.26.4"
tokio = { version = "=1.53.2", features = ["rt", "net", "io-util", "macros"] }
