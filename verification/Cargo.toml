[package]
name = "dw-apb-gpio"
version = "0.1.0"
edition = "2021"
publish = false

[dependencies]
critical-section = "=1.2.0"
embedded-hal = "=1.0.0"
volatile-register = "=0.2.2"

[dev-dependencies]
critical-section = { version = "=1.2.0", features = ["std"] }
