[package]
name = "pio_block"
version = "0.1.0"
edition = "2021"

[dependencies]
rp2040-pac = "*"
pio = "*"
