[package]
name = "ws2812_nrf52833_pwm"
version = "0.1.0"
edition = "2021"
publish = false

[dependencies]
embedded-hal = "*"
embedded-dma = "*"
nrf52833-hal = "*"
smart-leds-trait = "*"
