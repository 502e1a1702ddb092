[package]
name = "stylus_check"
version = "0.1.0"
edition = "2021"
publish = false

[dependencies]
ethers-core = "2"
hex = "0.4"
bytesize = "1"
eyre = "0.6"
