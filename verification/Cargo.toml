[package]
name = "zircon_threads"
version = "0.1.0"
edition = "2021"
publish = false

[dependencies]
fuchsia-zircon-sys = "*"
