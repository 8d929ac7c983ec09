[package]
name = "led_strip"
version = "0.1.0"
edition = "2021"
publish = false

[dependencies]
anyhow = "*"
esp-idf-svc = "*"
esp-idf-sys = "*"
log = "*"
