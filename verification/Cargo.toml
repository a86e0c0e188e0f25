[package]
name = "ludus_libretro"
version = "0.1.0"
edition = "2021"
publish = false

[dependencies]
ludus = "*"
libretro-rs = "*"
