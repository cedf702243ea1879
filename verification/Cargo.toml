[package]
name = "fit_activity"
version = "0.1.0"
edition = "2021"
publish = false

[dependencies]
fit-rust = "*"
pyo3 = "*"
