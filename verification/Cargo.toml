[package]
name = "benchvolt_poc"
version = "0.1.0"
edition = "2021"
publish = false

[dependencies]
heapless = "0.8"
reducto = "*"
embedded-graphics = "0.8"
embedded-hal = "0.2"
cortex-m = "0.7"
cortex-m-rt = "0.7"
display-interface-spi = "0.4"
mipidsi = "0.7"
stm32f0xx-hal = { version = "0.18", features = ["stm32f070xb"] }
gif = "0.13"
png = "0.17"
