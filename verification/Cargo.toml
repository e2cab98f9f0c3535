[package]
name = "sckitndi"
version = "0.1.0"
edition = "2021"
publish = false

[dependencies]
anyhow = "1"
block = "0.1"
cacao = "0.3"
cocoa-foundation = "0.1"
core-graphics-types = "0.1"
objc = "0.2"
once_cell = "1"
