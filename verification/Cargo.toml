[package]
name = "safetensors_to_onnx"
version = "0.1.0"
edition = "2021"
publish = false

[dependencies]
anyhow = "1"
memmap2 = "*"
prost = "*"
safetensors = "*"
serde = { version = "1", features = ["derive"] }
serde_json = "1"
