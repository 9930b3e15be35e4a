[package]
name = "fskit"
version = "0.1.0"
edition = "2021"
publish = false

[dependencies]
filetime = "0.2"
flate2 = "1"
fs-err = "*"
log = "0.4"
sha2 = "0.10"
tar = "0.4"
walkdir = "2"
zip = { version = "2", default-features = false, features = ["deflate"] }
