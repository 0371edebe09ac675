[package]
name = "rpi_led_panels"
version = "0.1.0"
edition = "2021"
publish = false

[dependencies]
argh = "*"
embedded-graphics = "*"
libc = "*"
memmap2 = "*"
thread-priority = "*"
