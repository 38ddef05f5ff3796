[package]
name = "linkcore"
version = "0.1.0"
edition = "2021"
publish = false

[dependencies]
pruefung = "*"
