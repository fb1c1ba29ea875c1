[package]
name = "emb_esp_exp"
version = "0.1.0"
edition = "2021"
publish = false

[dependencies]
fixed = "=1.31.0"
embedded-hal-async = "1.0.0"
embassy-time = "0.4.0"
embassy-executor = "0.7.0"
embassy-sync = "0.6.2"
embassy-embedded-hal = "0.3.2"
static_cell = "2.1.1"
esp-hal = { version = "=1.0.0-rc.0", features = ["esp32c3", "unstable"] }
esp-hal-embassy = { version = "0.9.0", features = ["esp32c3"] }
esp-alloc = "0.8.0"
esp-backtrace = { version = "0.17.0", features = ["esp32c3", "panic-handler", "println"] }
esp-bootloader-esp-idf = { version = "0.2.0", features = ["esp32c3"] }
esp-println = { version = "0.15.0", features = ["esp32c3"] }
