[package]
name = "anchor-book"
version = "0.1.0"
edition = "2021"
publish = false

[dependencies]
anchor-lang = "0.24.2"
num-derive = "0.3.3"
num-traits = "0.2.19"
