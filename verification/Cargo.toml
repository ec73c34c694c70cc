[package]
name = "ebird_loader"
version = "0.1.0"
edition = "2021"
publish = false

[dependencies]
regex = "*"
geo = "*"
rusqlite = { version = "*", features = ["bundled"] }
flate2 = "*"
clap = "*"
