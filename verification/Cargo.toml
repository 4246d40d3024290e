[package]
name = "stacks_core"
version = "0.1.0"
edition = "2021"
publish = false

[dependencies]
libsecp256k1 = "*"
sha2 = "*"
ripemd = "*"
