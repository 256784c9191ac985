[package]
name = "armos"
version = "0.1.0"
edition = "2021"
publish = false

[dependencies]
spin = "=0.12.3"
fontdue = "=0.9.5"
stm32h7 = { version = "=0.16.0", default-features = false, features = ["stm32h745cm7"] }
