[package]
name = "rsvg_internals"
version = "0.1.0"
edition = "2021"
publish = false

[dependencies]
cairo-rs = "0.5"
libc = "0.2"
