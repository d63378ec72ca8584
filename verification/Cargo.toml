[package]
name = "flexpage"
version = "0.1.0"
edition = "2021"
publish = false

[dependencies]
allsorts = "*"
oklab = "*"
rgb = "*"
smol_str = "*"
thiserror = "*"
ufmt = "*"
