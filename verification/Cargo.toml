[package]
name = "actix-actor-expect"
version = "0.1.0"
edition = "2021"
publish = false

[dependencies]
actix = { version = "0.13", default-features = false }
