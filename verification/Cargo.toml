[package]
name = "pathfinder_font"
version = "0.1.0"
edition = "2021"
publish = false

[dependencies]
byteorder = "1"
flate2 = "1"
