[package]
name = "zkdilithium_proof"
version = "0.1.0"
edition = "2021"
publish = false

[dependencies]
winterfell = "0.6"
libc = "0.2"
