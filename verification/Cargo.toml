[package]
name = "two_factor"
version = "0.1.0"
edition = "2021"
publish = false

[dependencies]
data-encoding = "*"
rand = "*"
totp-lite = "*"
