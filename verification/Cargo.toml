[package]
name = "sr_core"
version = "0.2.0"
edition = "2021"
publish = false

[dependencies]
anyhow = "1"
clap = { version = "4", features = ["derive"] }
indicatif = "0.17"
pyo3 = { version = "0.26", features = ["auto-initialize"] }
