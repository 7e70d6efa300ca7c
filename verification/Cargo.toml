[package]
name = "kfct_lib"
version = "0.1.0"
edition = "2021"
publish = false

[dependencies]
configparser = "*"
thiserror = "*"
walkdir = "*"
zip = "*"
zip-extensions = "*"
