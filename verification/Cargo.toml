[package]
name = "skirmish"
version = "0.1.0"
edition = "2021"
publish = false

[dependencies]
legion = "0.2.4"
euclid = "0.20"
gdnative = "0.8.1"
lazy_static = "1.4"
