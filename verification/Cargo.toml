[package]
name = "ft6x06"
version = "0.1.0"
edition = "2021"
publish = false

[dependencies]
embedded-hal = "0.2"
heapless = "0.7"
