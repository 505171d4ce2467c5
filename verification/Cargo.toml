[package]
name = "thermostat"
version = "0.1.0"
edition = "2021"
publish = false

[dependencies]
embassy-futures = "*"
embassy-time = { version = "*", features = ["std"] }
