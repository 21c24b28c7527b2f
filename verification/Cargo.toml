[package]
name = "vex_link"
version = "0.1.0"
edition = "2021"
publish = false

[dependencies]
vex-v5-serial = "*"
