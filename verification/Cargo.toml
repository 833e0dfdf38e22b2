[package]
name = "nogasm"
version = "0.1.0"
edition = "2021"
publish = false

[dependencies]
critical-section = "=1.2.0"
cty = "=0.2.2"
display-interface = "=0.4.1"
embedded-graphics = "=0.8.2"
embedded-hal = "=0.2.7"
esp-alloc = "=0.3.0"
esp-backtrace = { version = "=0.13.0", features = ["esp32", "panic-handler", "exception-handler", "println"] }
esp-println = { version = "=0.10.0", features = ["esp32"] }
esp32-hal = "=0.13.0"
heapless = "=0.7.17"
log = "0.4"
rotary-encoder-embedded = "=0.2.0"
ssd1306 = "=0.8.4"
