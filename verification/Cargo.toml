[package]
name = "rainze_core"
version = "0.1.0"
edition = "2021"
publish = false

[dependencies]
sysinfo = { version = "*", default-features = false, features = ["system"] }
pyo3 = { version = "*", features = ["extension-module"] }
