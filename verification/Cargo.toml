[package]
name = "zoe"
version = "0.1.0"
edition = "2021"
publish = false

[dependencies]
dirs = "*"
gtk4 = "*"
gdk4 = "*"
