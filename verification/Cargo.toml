[package]
name = "fasthash"
version = "0.1.0"
edition = "2021"
publish = false

[dependencies]
fasthash-sys = "=0.3.2"

[dev-dependencies]
farmhash = "=1.1.5"
