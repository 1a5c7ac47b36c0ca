[package]
name = "junto_dao"
version = "0.1.0"
edition = "2021"
publish = false

[dependencies]
anchor-lang = "*"
anchor-spl = { version = "*", default-features = false, features = ["token"] }
