[package]
name = "swtchr"
version = "0.1.0"
edition = "2021"
publish = false

[dependencies]
swayipc = "*"
async-channel = "*"
