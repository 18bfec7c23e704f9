[package]
name = "nvc"
version = "0.1.0"
edition = "2021"
publish = false

[dependencies]
url = "2"
clap = { version = "4", features = ["derive", "env"] }
colored = "2"
dirs = "5"
indicatif = "0.17"
reqwest = { version = "0.12", default-features = false, features = ["blocking"] }
