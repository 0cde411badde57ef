[package]
name = "gpm"
version = "0.1.0"
edition = "2021"
publish = false

[dependencies]
anyhow = "1"
pyo3 = "*"
raestro = "*"
rand = "0.8"
rppal = "*"
