[package]
name = "spatial"
version = "0.1.0"
edition = "2021"
publish = false

[dependencies]
num = "*"
serde = { version = "*", features = ["derive"] }
uom = "*"
