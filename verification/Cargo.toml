[package]
name = "wasmx"
version = "0.1.0"
edition = "2021"
publish = false

[dependencies]
anyhow = "1"
cap-rand = "3"
http = "1"
serde = { version = "1", features = ["derive"] }
toml = "0.8"
url = "2"
