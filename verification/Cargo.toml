[package]
name = "nvngx"
version = "0.1.0"
edition = "2021"
publish = false

[dependencies]
ash = "*"
log = "*"
uuid = { version = "*", features = ["v4"] }
widestring = "*"
