[package]
name = "pyo3_plugin"
version = "0.1.0"
edition = "2021"
publish = false

[dependencies]
pyo3 = "*"
pyo3-ffi = "*"
