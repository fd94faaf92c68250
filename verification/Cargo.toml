[package]
name = "atca"
version = "0.1.0"
edition = "2021"
publish = false

[dependencies]
digest = "0.9"
embedded-hal = "1"
generic-array = "0.14"
