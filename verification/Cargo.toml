[package]
name = "paste_trigger"
version = "0.1.0"
edition = "2021"
publish = false

[dependencies]
enigo = "=0.6.1"
