[package]
name = "word_arcade"
version = "0.1.0"
edition = "2021"
publish = false

[dependencies]
rand = "0.8"
getrandom = { version = "0.2", features = ["custom"] }
good-web-game = "*"
