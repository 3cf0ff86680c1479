[package]
name = "vipc"
version = "0.1.0"
edition = "2021"
publish = false

[dependencies]
kspin = "=0.2.0"
