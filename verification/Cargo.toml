[package]
name = "spectre_gtk"
version = "0.1.0"
edition = "2021"
publish = false

[dependencies]
gtk4 = "0.7"
libadwaita = { version = "0.5", features = ["v1_4"] }
dirs = "5"
once_cell = "1"
libc = "0.2"
