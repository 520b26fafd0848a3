[package]
name = "pam"
version = "0.1.0"
edition = "2021"
publish = false

[dependencies]
libc = "0.2"
pam-sys = "0.5"
users = "0.11"
