[package]
name = "enhancements"
version = "0.1.0"
edition = "2021"
publish = false

[dependencies]
anyhow = "1"
gtk4 = "0.4"
libadwaita = "0.1"
