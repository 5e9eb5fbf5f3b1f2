[package]
name = "fontdump"
version = "0.1.0"
edition = "2021"
publish = false

[dependencies]
encoding_rs = "=0.8.42"
atty = "=0.2.14"
getopts = "=0.2.24"
