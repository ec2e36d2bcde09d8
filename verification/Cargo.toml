[package]
name = "pta_generator"
version = "0.1.0"
edition = "2021"
publish = false

[dependencies]
clap = { version = "4", features = ["derive"] }
jiff = "0.2"
uuid = { version = "1", features = ["v5"] }
