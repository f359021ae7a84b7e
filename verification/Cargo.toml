[package]
name = "koda"
version = "0.1.0"
edition = "2021"
publish = false

[dependencies]
anyhow = "1"
bme280 = "0.2.1"
embedded-graphics = "0.7.1"
embedded-hal = "0.2.7"
embedded-svc = "0.19"
esp-idf-hal = "0.35"
esp-idf-svc = "0.39"
esp-idf-sys = ">=0.30, <0.32"
log = "0.4"
ssd1306 = "0.7.1"
