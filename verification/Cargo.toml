[package]
name = "mdbx4rs"
version = "0.1.0"
edition = "2021"
publish = false

[dependencies]
libmdbx = "=0.5.6"
mdbx-sys = "=12.13.2"
libc = "=0.2.191"
