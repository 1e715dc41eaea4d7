[package]
name = "lilap"
version = "0.1.0"
edition = "2021"
publish = false

[dependencies]
byteorder = "1"
confee = "*"
libc = "0.2"
neli = "*"
once_cell = "1"
signal-hook = "0.3"
