[package]
name = "mapr"
version = "0.7.0"
edition = "2021"
publish = false

[dependencies]
libc = "0.2"

[dev-dependencies]
tempdir = "0.3"
