[package]
name = "orange_classifier"
version = "0.1.0"
edition = "2021"
publish = false

[dependencies]
raster = "*"
serde = { version = "*", features = ["derive"] }
serde_json = "*"
