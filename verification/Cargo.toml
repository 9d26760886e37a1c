[package]
name = "leptess"
version = "0.1.0"
edition = "2021"
publish = false

[dependencies]
tesseract-sys = "*"
leptonica-sys = "*"
num-traits = "*"
num-derive = "*"
