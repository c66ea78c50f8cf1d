[package]
name = "tag-changer"
version = "0.1.0"
edition = "2021"
publish = false

[dependencies]
clap = "4"

[dev-dependencies]
rand = "0.8"
