[package]
name = "cacao"
version = "0.1.0"
edition = "2021"
publish = false

[dependencies]
cocoa = "*"
core-graphics = "*"
objc = "0.2"
objc_id = "0.1"
url = "2"
