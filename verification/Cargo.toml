[package]
name = "interprocess"
version = "0.1.0"
edition = "2021"
publish = false

[dependencies]
getrandom = "0.3"
sha2 = "0.10"
base64 = "0.22"
libc = "0.2"
memmap2 = "0.9"
