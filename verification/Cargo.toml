[package]
name = "reterminal_e100x"
version = "0.1.0"
edition = "2021"
publish = false

[dependencies]
embedded-graphics = "*"
png-decoder = "*"
