[package]
name = "primenet_rs"
version = "0.1.0"
edition = "2021"
publish = false

[dependencies]
clap = "3"
reqwest = { version = "0.11", default-features = false, features = ["blocking", "cookies", "rustls-tls"] }
