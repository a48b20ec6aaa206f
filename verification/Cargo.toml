[package]
name = "perspective_python"
version = "0.1.0"
edition = "2021"
publish = false

[dependencies]
async-lock = "*"
extend = "*"
futures = "0.3"
perspective-client = "*"
pyo3 = "0.21"
pythonize = "0.21"
tracing = "0.1"
