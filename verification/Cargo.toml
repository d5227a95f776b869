[package]
name = "tetrabiblos_lib"
version = "0.1.0"
edition = "2021"
publish = false

[dependencies]
hifitime = "*"
vsop87 = "*"
