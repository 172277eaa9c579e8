[package]
name = "toshokan"
version = "0.1.0"
edition = "2021"
publish = false

[dependencies]
autocorrect = "*"
image = { version = "*", default-features = false, features = ["bmp", "gif", "jpeg", "png", "webp"] }
