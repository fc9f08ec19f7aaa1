[package]
name = "pydis"
version = "0.1.0"
edition = "2021"
publish = false

[dependencies]
rustpython-compiler = "=0.4.0"
argh = "=0.1.19"
