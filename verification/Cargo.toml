[package]
name = "robrix_core"
version = "0.1.0"
edition = "2021"
publish = false

[dependencies]
anyhow = "1"
tokio = { version = "1", features = ["time"] }
unicode-segmentation = "1"
