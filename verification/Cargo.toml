[package]
name = "tabiew"
version = "0.1.0"
edition = "2021"
publish = false

[dependencies]
base64 = "=0.23.1"
unicode-width = "=0.2.2"
rand = "=0.10.3"
shell-words = "=1.1.1"
