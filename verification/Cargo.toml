[package]
name = "solar_dehydrator"
version = "0.1.0"
edition = "2021"
publish = false

[dependencies]
heapless = "0.8"
embassy-time = "*"
embassy-sync = "*"
embassy-futures = "*"
embassy-executor = "*"
embassy-stm32 = { version = "*", features = ["stm32f103c8"] }
embedded-graphics = "*"
embedded-hal-async = "*"
defmt = "*"
defmt-rtt = "*"
panic-probe = "*"
tinybmp = "*"
