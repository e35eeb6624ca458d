[package]
name = "atc_console"
version = "0.1.0"
edition = "2021"
publish = false

[dependencies]
fltk = { version = "=1.5.23", features = ["rwh06"] }
minifb = "=0.29.0"
pixels = "=0.17.2"
