[package]
name = "lang_basics"
version = "0.1.0"
edition = "2021"
publish = false

[dependencies]
winput = "*"
