[package]
name = "gpgme"
version = "0.1.0"
edition = "2021"
publish = false

[dependencies]
conv = "0.3"
libc = "0.2"
gpgme-sys = "0.9"
