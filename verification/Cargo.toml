[package]
name = "model_rs"
version = "0.1.0"
edition = "2021"
publish = false

[dependencies]
chrono = { version = "=0.4.45", features = ["serde"] }
iso_currency = "=0.7.1"
pyo3 = { version = "=0.29.3", features = ["chrono"] }
serde = { version = "=1.0.229", features = ["derive"] }
