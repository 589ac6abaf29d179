[package]
name = "fm24v10"
version = "0.1.0"
edition = "2021"
publish = false

[dependencies]
embedded-hal-async = "*"
