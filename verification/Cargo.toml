[package]
name = "kipper"
version = "0.1.0"
edition = "2021"
publish = false

[dependencies]
json = "*"
url = "*"
getopts = "*"
log = "*"
stderrlog = "*"
rouille = { version = "*", default-features = false }
reqwest = { version = "*", default-features = false, features = ["blocking"] }
