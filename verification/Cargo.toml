[package]
name = "isofetch"
version = "0.1.0"
edition = "2021"
publish = false

[dependencies]
indicatif = "*"
reqwest = { version = "*", default-features = false, features = ["stream"] }
tokio = { version = "*", features = ["rt-multi-thread", "macros"] }
futures-util = "*"
toml = "*"
