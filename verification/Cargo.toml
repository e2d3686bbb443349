[package]
name = "ara"
version = "0.1.0"
edition = "2021"
publish = false

[dependencies]
syn = { version = "2", features = ["full"] }
quote = "1"
colored = "*"
toml = "*"
serde = "*"
serde_derive = "*"
