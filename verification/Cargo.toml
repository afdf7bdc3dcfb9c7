[package]
name = "mapmesh"
version = "0.1.0"
edition = "2021"
publish = false

[dependencies]
flatgeobuf = { version = "*", default-features = false }
geozero = { version = "*", default-features = false }
earcutr = "*"
lyon = "*"
seek_bufread = "*"
