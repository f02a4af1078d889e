[package]
name = "button_input"
version = "0.1.0"
edition = "2021"
publish = false

[dependencies]
esp-idf-svc = "=0.53.0"
mipidsi = "=0.10.0"
mousefood = "=0.2.1"
rand = "=0.10.3"
