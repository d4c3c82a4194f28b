[package]
name = "esp_panels"
version = "0.1.0"
edition = "2021"
publish = false

[dependencies]
embassy-executor = "=0.9.1"
embassy-sync = "=0.7.2"
embassy-time = { version = "=0.5.1", features = ["tick-hz-1_000_000"] }
embedded-graphics = "=0.8.2"
embedded-hal-bus = "=0.3.0"
log = "=0.4.35"
mipidsi = "=0.9.0"
static_cell = "=2.1.1"

[dev-dependencies]
critical-section = { version = "=1.2.0", features = ["std"] }
