[package]
name = "kinc"
version = "0.1.0"
edition = "2021"
publish = false

[dependencies]
bitflags = "1.3"
proc-macro2 = "1"
quote = "1"
syn = "2"
