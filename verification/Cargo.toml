[package]
name = "autotile"
version = "0.1.0"
edition = "2021"
publish = false

[dependencies]
swayipc = "*"
ctrlc = "*"
anyhow = "*"
