[package]
name = "ztr"
version = "0.1.0"
edition = "2021"
publish = false

[dependencies]
clap = { version = "4", features = ["derive"] }
handlebars = "4"
rand = "0.8"
