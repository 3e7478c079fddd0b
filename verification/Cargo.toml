[package]
name = "quote_fs"
version = "0.1.0"
edition = "2021"
publish = false

[dependencies]
clap = { version = "*", features = ["cargo"] }
fuser = "*"
libc = "*"
