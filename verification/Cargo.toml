[package]
name = "esp_thermostat"
version = "0.1.0"
edition = "2021"
publish = false

[dependencies]
anyhow = "=1.0.104"
log = "=0.4.34"
ds18b20 = "=0.1.1"
one-wire-bus = "=0.1.1"
esp-idf-svc = "0.51"
