[package]
name = "mjml"
version = "0.1.0"
edition = "2021"
publish = false

[dependencies]
mrml = "*"
clap = { version = "*", features = ["derive"] }
clap-verbosity-flag = "*"
env_logger = "*"
log = "*"
pyo3 = "*"
