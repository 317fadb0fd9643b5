[package]
name = "wasi_nn_tract"
version = "0.1.0"
edition = "2021"
publish = false

[dependencies]
tract-onnx = "*"
log = "0.4"
