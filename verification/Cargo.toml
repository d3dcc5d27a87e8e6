[package]
name = "aikot"
version = "0.1.0"
edition = "2021"
publish = false

[dependencies]
rand = "*"
arboard = "*"
libc = "*"
anyhow = "*"
argh = "*"
gtmpl = "*"
thiserror = "*"
