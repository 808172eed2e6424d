[package]
name = "selenial_sector"
version = "0.1.0"
edition = "2021"

[dependencies]
ggez = "0.7"
ndarray = "0.15"
