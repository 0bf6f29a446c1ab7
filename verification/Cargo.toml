[package]
name = "nrf24"
version = "0.1.0"
edition = "2021"
publish = false

[dependencies]
anyhow = "*"
embedded-hal = "0.2"
esp-idf-hal = "*"
esp-idf-svc = "*"
esp-idf-sys = "*"
