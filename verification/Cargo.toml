[package]
name = "spacepix"
version = "0.1.0"
edition = "2021"
publish = false

[dependencies]
json = "*"
chrono = "*"
open = "*"
reqwest = { version = "*", default-features = false, features = ["blocking"] }
