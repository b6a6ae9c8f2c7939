[package]
name = "h_button"
version = "0.1.0"
edition = "2021"
publish = false

[dependencies]
anyhow = "1"
esp32-nimble = "*"
esp-idf-hal = "*"
esp-idf-svc = "*"
esp-idf-sys = "*"
log = "0.4"
rotary-encoder-hal = "*"
serde = { version = "1", features = ["derive"] }
serde_json = "1"
smart-leds = "*"
ws2812-esp32-rmt-driver = { version = "*", features = ["smart-leds-trait"] }
