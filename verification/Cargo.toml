[package]
name = "tmp117"
version = "0.1.0"
edition = "2021"
publish = false

[dependencies]
bilge = "0.2"
embedded-hal = "1.0"
