[package]
name = "hashcash"
version = "0.1.0"
edition = "2021"
publish = false

[dependencies]
bus = "2"
rand = "0.8"
sha1 = "0.10"
