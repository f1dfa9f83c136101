[package]
name = "curumim"
version = "0.1.0"
edition = "2021"
publish = false

[dependencies]
ropey = { version = "1", default-features = false }
crossterm = "*"
clap = { version = "4", features = ["derive"] }
log = "*"
simple-logging = "*"
