[package]
name = "rederr"
version = "0.1.0"
edition = "2021"
publish = false

[dependencies]
anyhow = "*"
bstr = "*"
clap = { version = "*", features = ["derive"] }
duration-str = { version = "*", default-features = false }
popol = "*"
termcolor = "*"
