[package]
name = "faceboom"
version = "0.1.0"
edition = "2021"
publish = false

[dependencies]
bracket-lib = "0.8"
bracket-random = "0.8"
pyo3 = { version = "0.20", features = ["auto-initialize"] }
