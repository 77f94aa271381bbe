[package]
name = "backtest_lab"
version = "0.1.0"
edition = "2021"
publish = false

[dependencies]
chrono = { version = "0.4", default-features = false, features = ["std"] }
rayon = "1"
once_cell = "1"
pyo3 = { version = "0.20", features = ["extension-module"] }
dict_derive = "0.5"
