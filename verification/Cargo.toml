[package]
name = "unix_socket"
version = "0.4.6"
edition = "2021"
publish = false

[dependencies]
libc = "0.2"
debug-builders = "0.1"
