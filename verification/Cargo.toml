[package]
name = "ssd1680"
version = "0.1.0"
edition = "2021"
publish = false

[dependencies]
embedded-hal = "0.2"
embedded-hal-async = "1"
embedded-graphics-core = "0.4"
