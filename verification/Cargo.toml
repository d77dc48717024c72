[package]
name = "edon"
version = "0.1.0"
edition = "2021"
publish = false

[dependencies]
libnode_sys = "*"
