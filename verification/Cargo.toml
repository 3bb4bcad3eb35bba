[package]
name = "fitm"
version = "0.1.0"
edition = "2021"
publish = false

[dependencies]
fs_extra = "1.3"
