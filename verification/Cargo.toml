[package]
name = "bud"
version = "0.1.0"
edition = "2021"
publish = false

[dependencies]
anyhow = "1"
log = "0.4"
smart-leds = "0.4"
esp-idf-svc = "0.51"
ws2812-esp32-rmt-driver = { version = "=0.13.1", features = ["smart-leds-trait"] }
