[package]
name = "scandir_rs"
version = "0.9.3"
edition = "2021"
publish = false

[dependencies]
glob = "0.3"
