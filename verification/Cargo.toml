[package]
name = "counting_layer"
version = "0.1.0"
edition = "2021"
publish = false

[dependencies]
libcnb = "0.14"
serde = { version = "1", features = ["derive"] }
