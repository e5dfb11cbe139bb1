[package]
name = "easy_prog"
version = "1.0.0"
edition = "2021"
publish = false

[dependencies]
libc = "*"
rustyline = "*"
