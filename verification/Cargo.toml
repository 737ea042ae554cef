[package]
name = "clock_blinky"
version = "0.1.0"
edition = "2021"
publish = false

[dependencies]
drone-core = "=0.14.3"
drone-cortexm = { version = "=0.14.1", features = ["bit-band", "floating-point-unit"] }
drone-stm32-map = { version = "=0.14.0", features = ["exti", "gpio"] }
futures = { version = "=0.3.34", default-features = false, features = ["async-await"] }
typenum = "=1.20.1"
